//! The engine's laws, stated and proved over the specification functions
//! that the public functions' contracts use.

use crate::extract::{extract_sql_list_spec, extract_spec};
use crate::json::decoded_rules_from;
use crate::matcher::{
    has_site_toks, lemma_scan_empty_iff_no_site, lemma_scan_split, nested_at, scan_from,
    scan_segment, yield_at,
};
use crate::parser::{lex_model, parses};
use crate::results::LiteralView;
use crate::rules::RuleView;
use crate::tokens::TokView;
use vstd::prelude::*;

verus! {

/// A source file that parses and tokenizes yields an empty sequence
/// exactly where its token tree holds no qualifying call site.
pub proof fn lemma_empty_iff_no_qualifying_site(
    s: Seq<char>,
    model: Seq<TokView>,
    rules: Seq<RuleView>,
)
    requires
        parses(s),
        lex_model(s) == Some(model),
    ensures
        (extract_spec(s, rules).len() == 0) <==> !has_site_toks(model, rules),
{
    lemma_scan_empty_iff_no_site(model, 0, rules);
}

/// A source file that fails to parse yields an empty sequence, never an
/// error.
pub proof fn lemma_unparsable_yields_empty(s: Seq<char>, rules: Seq<RuleView>)
    requires
        !parses(s),
    ensures
        extract_spec(s, rules) == Seq::<LiteralView>::empty(),
{
}

/// Idempotence: two extractions of identical input under identical rules —
/// each pinned to the specification by `extract`'s contract — are
/// identical, order included.
pub proof fn lemma_extract_idempotent(
    s: Seq<char>,
    rules: Seq<RuleView>,
    first: Seq<LiteralView>,
    second: Seq<LiteralView>,
)
    requires
        first == extract_spec(s, rules),
        second == extract_spec(s, rules),
    ensures
        first == second,
{
}

/// Document order, locally: whatever the walk yields from a position on
/// splits into the records of the call site opening there, then every
/// record nested in that position's own group, then every record of later
/// positions — a parent's record stands before those nested in its own
/// arguments.
pub proof fn lemma_document_order(items: Seq<TokView>, i: int, rules: Seq<RuleView>)
    requires
        0 <= i < items.len(),
    ensures
        scan_from(items, i, rules) == yield_at(items, i, rules) + nested_at(items, i, rules)
            + scan_from(items, i + 1, rules),
{
}

/// Document order, globally: at any split position, everything yielded at
/// and under the earlier positions stands before everything yielded from
/// the later ones — results appear in the order their call sites appear in
/// the text, regardless of nesting.
pub proof fn lemma_document_order_split(items: Seq<TokView>, a: int, b: int, rules: Seq<RuleView>)
    requires
        0 <= a <= b <= items.len(),
    ensures
        scan_from(items, a, rules) == scan_segment(items, a, b, rules) + scan_from(
            items,
            b,
            rules,
        ),
{
    lemma_scan_split(items, a, b, rules);
}

/// A malformed rule list fails the whole call: the wire-level entry point
/// returns an empty sequence, whatever the source text holds.
pub proof fn lemma_malformed_rules_yield_empty(s: Seq<char>, cs: Seq<Seq<char>>)
    requires
        decoded_rules_from(cs, 0) is None,
    ensures
        extract_sql_list_spec(s, Some(cs)) == Seq::<Seq<char>>::empty(),
{
}

} // verus!
