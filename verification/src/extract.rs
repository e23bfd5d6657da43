//! The extraction entry points.
//!
//! `extract` parses the source text through the external parser
//! collaborator; where the text does not parse, it returns an empty
//! sequence (fail-soft), and otherwise runs the call-site matcher with the
//! caller's rule set over the token tree.

use crate::matcher::{scan_toks, scan_tree};
use crate::parser::{build_nodes, lex_model, lex_stream, parse_gate, parses};
use crate::results::{ExtractedLiteral, LiteralView};
use crate::rules::{ExtractionRule, RuleView, default_rules_view};
use crate::tokens::nodes_view;
use vstd::prelude::*;

verus! {

/// Everything `extract` returns for source text `s` under `rules`: nothing
/// where the text does not parse or does not tokenize, and the matcher's
/// document-order yield otherwise.
pub open spec fn extract_spec(s: Seq<char>, rules: Seq<RuleView>) -> Seq<LiteralView> {
    if !parses(s) {
        Seq::empty()
    } else {
        match lex_model(s) {
            Some(model) => scan_toks(model, rules),
            None => Seq::empty(),
        }
    }
}

/// Extracts every literal that a rule-matched call site of `source_txt`
/// carries, in document order.  A source text that does not parse yields an
/// empty result rather than an error.
pub fn extract(source_txt: &str, rules: &Vec<ExtractionRule>) -> (out: Vec<ExtractedLiteral>)
    ensures
        out.deep_view() == extract_spec(source_txt@, rules.deep_view()),
{
    if !parse_gate(source_txt) {
        let out: Vec<ExtractedLiteral> = Vec::new();
        proof {
            assert(out.deep_view() =~= extract_spec(source_txt@, rules.deep_view()));
        }
        return out;
    }
    match lex_stream(source_txt) {
        Some(ts) => {
            let ghost model = crate::parser::stream_model(ts);
            let nodes = build_nodes(ts);
            let out = scan_tree(&nodes, rules);
            proof {
                assert(nodes_view(nodes@) == model);
            }
            out
        },
        None => {
            let out: Vec<ExtractedLiteral> = Vec::new();
            proof {
                assert(out.deep_view() =~= extract_spec(source_txt@, rules.deep_view()));
            }
            out
        },
    }
}

/// Extracts with the built-in default rule set.
pub fn extract_with_default_rules(source_txt: &str) -> (out: Vec<ExtractedLiteral>)
    ensures
        out.deep_view() == extract_spec(source_txt@, default_rules_view()),
{
    let rules = crate::rules::default_rules();
    extract(source_txt, &rules)
}

/// The JSON encodings of a record sequence, in order.
pub open spec fn json_list(lits: Seq<LiteralView>) -> Seq<Seq<char>> {
    lits.map(|i: int, l: LiteralView| crate::json::json_of_literal(l))
}

/// Everything `extract_sql_list` returns: nothing where any caller-supplied
/// rule record fails to decode or validate, and the JSON encodings of the
/// extraction's records otherwise.
pub open spec fn extract_sql_list_spec(s: Seq<char>, configs: Option<Seq<Seq<char>>>) -> Seq<
    Seq<char>,
> {
    match configs {
        Some(cs) => match crate::json::decoded_rules_from(cs, 0) {
            Some(rules) => json_list(extract_spec(s, rules)),
            None => Seq::empty(),
        },
        None => json_list(extract_spec(s, default_rules_view())),
    }
}

/// The wire-level entry point: takes the source text and, optionally, a
/// list of JSON rule records, and returns the extracted records as JSON
/// text, in document order.  A malformed rule list, like a source text that
/// does not parse, yields an empty result rather than an error.
#[verifier::loop_isolation(false)]
pub fn extract_sql_list(source_txt: &str, configs: Option<Vec<String>>) -> (out: Vec<String>)
    ensures
        out.deep_view() == extract_sql_list_spec(source_txt@, configs.deep_view()),
{
    let rules: Vec<ExtractionRule> = match &configs {
        Some(cs) => {
            match crate::json::decode_rules(cs) {
                Some(rules) => rules,
                None => {
                    let out: Vec<String> = Vec::new();
                    proof {
                        assert(out.deep_view() =~= extract_sql_list_spec(
                            source_txt@,
                            configs.deep_view(),
                        ));
                    }
                    return out;
                },
            }
        },
        None => crate::rules::default_rules(),
    };
    let lits = extract(source_txt, &rules);
    let ghost lv = lits.deep_view();
    let mut out: Vec<String> = Vec::new();
    let mut i: usize = 0;
    while i < lits.len()
        invariant
            i <= lits@.len(),
            out.deep_view().len() == i,
            forall|j: int|
                0 <= j < i ==> out.deep_view()[j] == crate::json::json_of_literal(lv[j]),
        decreases lits@.len() - i,
    {
        let s = crate::json::literal_to_json(&lits[i]);
        let ghost out_before = out.deep_view();
        out.push(s);
        proof {
            assert(out.deep_view() =~= out_before.push(s@));
        }
        i += 1;
    }
    proof {
        assert(out.deep_view() =~= json_list(lv));
        assert(out.deep_view() =~= extract_sql_list_spec(source_txt@, configs.deep_view()));
    }
    out
}

} // verus!
