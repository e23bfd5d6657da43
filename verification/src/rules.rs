//! Extraction rules: which call sites carry embedded literals and at which
//! argument position.

use vstd::prelude::*;

verus! {

/// The two call-site kinds a rule can target.
///
/// A `MetaprogrammingInvocation` carries an unstructured token stream as its
/// argument list; a `PlainCall` carries parsed argument expressions.
#[derive(Clone, Copy, PartialEq, Eq, Structural, Debug)]
pub enum CallSiteKind {
    MetaprogrammingInvocation,
    PlainCall,
}

/// Mathematical model of an [`ExtractionRule`].
pub struct RuleView {
    pub callee_name: Seq<char>,
    pub argument_index: int,
    pub kind: CallSiteKind,
}

/// One extraction rule: a call site whose callee bears `callee_name` and is
/// of kind `kind` carries its literal at position `argument_index`
/// (0-indexed).
#[derive(Debug)]
pub struct ExtractionRule {
    pub callee_name: String,
    pub argument_index: usize,
    pub kind: CallSiteKind,
}

impl View for ExtractionRule {
    type V = RuleView;

    open spec fn view(&self) -> RuleView {
        RuleView {
            callee_name: self.callee_name@,
            argument_index: self.argument_index as int,
            kind: self.kind,
        }
    }
}

impl DeepView for ExtractionRule {
    type V = RuleView;

    open spec fn deep_view(&self) -> RuleView {
        self.view()
    }
}

/// What a wire-level rule record `(name, index, kind)` becomes: a rule, or
/// nothing where the index does not fit the machine.
pub open spec fn rule_new_spec(name: Seq<char>, index: u64, is_meta: bool) -> Option<RuleView> {
    if index <= usize::MAX {
        Some(
            RuleView {
                callee_name: name,
                argument_index: index as int,
                kind: if is_meta {
                    CallSiteKind::MetaprogrammingInvocation
                } else {
                    CallSiteKind::PlainCall
                },
            },
        )
    } else {
        None
    }
}

impl ExtractionRule {
    /// Validated builder from wire-level values: rejects an argument index
    /// that does not fit the machine's word size.
    pub fn new(callee_name: String, argument_index: u64, is_meta: bool) -> (r: Option<
        ExtractionRule,
    >)
        ensures
            match r {
                Some(rule) => rule_new_spec(callee_name@, argument_index, is_meta) == Some(rule@),
                None => rule_new_spec(callee_name@, argument_index, is_meta) is None,
            },
    {
        if argument_index <= usize::MAX as u64 {
            Some(
                ExtractionRule {
                    callee_name,
                    argument_index: argument_index as usize,
                    kind: if is_meta {
                        CallSiteKind::MetaprogrammingInvocation
                    } else {
                        CallSiteKind::PlainCall
                    },
                },
            )
        } else {
            None
        }
    }
}

/// The built-in default rule pair: the conventional "query" invocation with
/// the literal first, and the "query with typed row" invocation with a type
/// descriptor first and the literal second.
pub open spec fn default_rules_view() -> Seq<RuleView> {
    seq![
        RuleView {
            callee_name: "query"@,
            argument_index: 0,
            kind: CallSiteKind::MetaprogrammingInvocation,
        },
        RuleView {
            callee_name: "query_as"@,
            argument_index: 1,
            kind: CallSiteKind::MetaprogrammingInvocation,
        },
    ]
}

/// Builds the default rule set used when the caller supplies none.
pub fn default_rules() -> (r: Vec<ExtractionRule>)
    ensures
        r.deep_view() == default_rules_view(),
{
    let mut r: Vec<ExtractionRule> = Vec::new();
    r.push(
        ExtractionRule {
            callee_name: String::from_str("query"),
            argument_index: 0,
            kind: CallSiteKind::MetaprogrammingInvocation,
        },
    );
    r.push(
        ExtractionRule {
            callee_name: String::from_str("query_as"),
            argument_index: 1,
            kind: CallSiteKind::MetaprogrammingInvocation,
        },
    );
    proof {
        assert(r.deep_view() =~= default_rules_view());
    }
    r
}

} // verus!
