//! The call-site matcher: a depth-first walk over the token tree that
//! recognizes the two call-site kinds, filters them by the rule set, and
//! collects the normalized literals in document order.
//!
//! A metaprogramming invocation is an identifier followed by `!` and a
//! delimited group; its argument tokens are grouped into slots by treating
//! every other top-level token as a separator.  A plain call is an
//! identifier followed directly by a parenthesized group (not preceded by a
//! `.` receiver or the `fn` keyword), whose arguments are the top-level
//! comma-separated token runs; an argument the walk passes over must itself
//! be a single string-literal token.  Whatever a call site yields, the walk
//! continues into every group, so call sites nested in arguments are still
//! found.

use crate::normalize::normalize_spec;
use crate::results::{ExtractedLiteral, LiteralView};
use crate::rules::{CallSiteKind, ExtractionRule, RuleView};
use crate::tokens::{TokNode, TokView, lemma_nodes_view_index, nodes_view, tok_node_view};
use vstd::prelude::*;

verus! {

pub open spec fn is_comma(t: TokView) -> bool {
    t == (TokView::PunctTok { ch: ',' })
}

pub open spec fn is_bang(t: TokView) -> bool {
    t == (TokView::PunctTok { ch: '!' })
}

pub open spec fn is_dot(t: TokView) -> bool {
    t == (TokView::PunctTok { ch: '.' })
}

/// Whether the token is the `fn` keyword (the tokenizer reports keywords as
/// identifiers).
pub open spec fn is_fn_kw(t: TokView) -> bool {
    match t {
        TokView::IdentTok { text, .. } => text == "fn"@,
        _ => false,
    }
}

/// Whether the token is a literal token whose first character opens one of
/// the two string delimiter styles.
pub open spec fn is_string_lit(t: TokView) -> bool {
    match t {
        TokView::LitTok { raw, .. } => raw.len() >= 1 && (raw[0] == '"' || raw[0] == 'r'),
        _ => false,
    }
}

pub open spec fn ident_text(t: TokView) -> Seq<char> {
    match t {
        TokView::IdentTok { text, .. } => text,
        _ => Seq::empty(),
    }
}

pub open spec fn ident_line(t: TokView) -> int {
    match t {
        TokView::IdentTok { line, .. } => line,
        _ => 0,
    }
}

pub open spec fn group_paren(t: TokView) -> bool {
    match t {
        TokView::GroupTok { paren, .. } => paren,
        _ => false,
    }
}

pub open spec fn group_items(t: TokView) -> Seq<TokView> {
    match t {
        TokView::GroupTok { items, .. } => items,
        _ => Seq::empty(),
    }
}

/// What a literal token yields under a callee anchored on `anchor`:
/// its normalization, or nothing for any other token.
pub open spec fn lit_norm(t: TokView, anchor: int) -> Option<LiteralView> {
    match t {
        TokView::LitTok { raw, start_line, start_character, end_line, end_character } => (
        normalize_spec(raw, start_line, start_character, end_line, end_character, anchor)),
        _ => None,
    }
}

/// The first rule of `rules`, from position `i` on, whose kind and callee
/// name match.
pub open spec fn first_match_from(
    rules: Seq<RuleView>,
    i: int,
    kind: CallSiteKind,
    name: Seq<char>,
) -> Option<RuleView>
    decreases rules.len() - i,
{
    if 0 <= i < rules.len() {
        if rules[i].kind == kind && rules[i].callee_name == name {
            Some(rules[i])
        } else {
            first_match_from(rules, i + 1, kind, name)
        }
    } else {
        None
    }
}

/// The position of the `k`-th comma-separated argument of a plain call's
/// token run from position `i` on, provided that argument and every one
/// before it is a single string-literal token.
pub open spec fn plain_pick_from(toks: Seq<TokView>, i: int, k: int) -> Option<int>
    decreases toks.len() - i,
{
    if !(0 <= i < toks.len()) {
        None
    } else {
        let single = is_string_lit(toks[i]) && (i + 1 == toks.len() || is_comma(toks[i + 1]));
        if k == 0 {
            if single {
                Some(i)
            } else {
                None
            }
        } else if k > 0 && single && i + 1 < toks.len() {
            plain_pick_from(toks, i + 2, k - 1)
        } else {
            None
        }
    }
}

/// Whether position `i` of `items` opens a metaprogramming invocation: an
/// identifier, `!`, and a group.
pub open spec fn macro_site_at(items: Seq<TokView>, i: int) -> bool {
    &&& 0 <= i
    &&& i + 2 < items.len()
    &&& items[i] is IdentTok
    &&& is_bang(items[i + 1])
    &&& items[i + 2] is GroupTok
}

/// Whether position `i` of `items` opens a plain call: an identifier
/// followed directly by a parenthesized group, not standing after a `.`
/// receiver or the `fn` keyword.
pub open spec fn plain_site_at(items: Seq<TokView>, i: int) -> bool {
    &&& 0 <= i
    &&& i + 1 < items.len()
    &&& items[i] is IdentTok
    &&& items[i + 1] is GroupTok
    &&& group_paren(items[i + 1])
    &&& !(i >= 1 && (is_dot(items[i - 1]) || is_fn_kw(items[i - 1])))
}

/// What a matched metaprogramming invocation with argument tokens `g`
/// yields for argument slot `k`: slot `k` is the token at position `2 * k`,
/// every other top-level token being a separator.
pub open spec fn macro_yield(g: Seq<TokView>, k: int, anchor: int) -> Seq<LiteralView> {
    if 0 <= k && 2 * k < g.len() {
        match lit_norm(g[2 * k], anchor) {
            Some(l) => seq![l],
            None => Seq::empty(),
        }
    } else {
        Seq::empty()
    }
}

/// What a matched plain call with argument tokens `g` yields for argument
/// position `k`.
pub open spec fn plain_yield(g: Seq<TokView>, k: int, anchor: int) -> Seq<LiteralView> {
    match plain_pick_from(g, 0, k) {
        Some(ix) => match lit_norm(g[ix], anchor) {
            Some(l) => seq![l],
            None => Seq::empty(),
        },
        None => Seq::empty(),
    }
}

/// What the call site opening at position `i` of `items` yields under
/// `rules`: nothing where no site opens there, no rule matches, the
/// configured slot is missing or not a literal, or the literal's delimiter
/// style is not recognized.  The first rule whose kind and callee name
/// match decides alone.
pub open spec fn yield_at(items: Seq<TokView>, i: int, rules: Seq<RuleView>) -> Seq<LiteralView> {
    if macro_site_at(items, i) {
        match first_match_from(
            rules,
            0,
            CallSiteKind::MetaprogrammingInvocation,
            ident_text(items[i]),
        ) {
            Some(r) => macro_yield(
                group_items(items[i + 2]),
                r.argument_index,
                ident_line(items[i]),
            ),
            None => Seq::empty(),
        }
    } else if plain_site_at(items, i) {
        match first_match_from(rules, 0, CallSiteKind::PlainCall, ident_text(items[i])) {
            Some(r) => plain_yield(
                group_items(items[i + 1]),
                r.argument_index,
                ident_line(items[i]),
            ),
            None => Seq::empty(),
        }
    } else {
        Seq::empty()
    }
}

/// Everything the walk yields from position `i` of `items` on: the yield of
/// a site opening at `i`, then everything nested in the group at `i`, then
/// everything from `i + 1` on — document order.
pub open spec fn scan_from(items: Seq<TokView>, i: int, rules: Seq<RuleView>) -> Seq<LiteralView>
    decreases items, items.len() - i,
{
    if !(0 <= i < items.len()) {
        Seq::empty()
    } else {
        yield_at(items, i, rules) + (match items[i] {
            TokView::GroupTok { items: inner, .. } => scan_toks(inner, rules),
            _ => Seq::empty(),
        }) + scan_from(items, i + 1, rules)
    }
}

/// Everything the walk yields from a token sequence.
pub open spec fn scan_toks(items: Seq<TokView>, rules: Seq<RuleView>) -> Seq<LiteralView>
    decreases items, items.len() + 1,
{
    scan_from(items, 0, rules)
}

/// Everything nested in the group standing at position `i`, and nothing
/// for any other token.
pub open spec fn nested_at(items: Seq<TokView>, i: int, rules: Seq<RuleView>) -> Seq<LiteralView> {
    match items[i] {
        TokView::GroupTok { items: inner, .. } => scan_toks(inner, rules),
        _ => Seq::empty(),
    }
}

/// Everything the walk yields at and under positions `a` (inclusive) to
/// `b` (exclusive).
pub open spec fn scan_segment(items: Seq<TokView>, a: int, b: int, rules: Seq<RuleView>) -> Seq<
    LiteralView,
>
    decreases b - a,
{
    if !(0 <= a < b && b <= items.len()) {
        Seq::empty()
    } else {
        yield_at(items, a, rules) + nested_at(items, a, rules) + scan_segment(
            items,
            a + 1,
            b,
            rules,
        )
    }
}

/// The walk's output splits at any position: everything yielded at and
/// under the earlier positions stands before everything yielded from the
/// later ones.
pub proof fn lemma_scan_split(items: Seq<TokView>, a: int, b: int, rules: Seq<RuleView>)
    requires
        0 <= a <= b <= items.len(),
    ensures
        scan_from(items, a, rules) == scan_segment(items, a, b, rules) + scan_from(
            items,
            b,
            rules,
        ),
    decreases b - a,
{
    if a < b {
        lemma_scan_split(items, a + 1, b, rules);
        assert(yield_at(items, a, rules) + nested_at(items, a, rules) + (scan_segment(
            items,
            a + 1,
            b,
            rules,
        ) + scan_from(items, b, rules)) =~= scan_segment(items, a, b, rules) + scan_from(
            items,
            b,
            rules,
        ));
        assert(scan_from(items, a, rules) == yield_at(items, a, rules) + nested_at(
            items,
            a,
            rules,
        ) + scan_from(items, a + 1, rules));
    } else {
        assert(scan_segment(items, a, b, rules) + scan_from(items, b, rules) =~= scan_from(
            items,
            b,
            rules,
        ));
    }
}

/// Whether any position from `i` on, or anything nested there, yields a
/// record: the tree holds a qualifying call site.
pub open spec fn has_site_from(items: Seq<TokView>, i: int, rules: Seq<RuleView>) -> bool
    decreases items, items.len() - i,
{
    if !(0 <= i < items.len()) {
        false
    } else {
        yield_at(items, i, rules).len() > 0 || (match items[i] {
            TokView::GroupTok { items: inner, .. } => has_site_toks(inner, rules),
            _ => false,
        }) || has_site_from(items, i + 1, rules)
    }
}

/// Whether a token sequence holds a qualifying call site.
pub open spec fn has_site_toks(items: Seq<TokView>, rules: Seq<RuleView>) -> bool
    decreases items, items.len() + 1,
{
    has_site_from(items, 0, rules)
}

/// The walk yields nothing from position `i` on exactly where no position
/// from `i` on holds a qualifying call site.
pub proof fn lemma_scan_empty_iff_no_site(items: Seq<TokView>, i: int, rules: Seq<RuleView>)
    ensures
        (scan_from(items, i, rules).len() == 0) <==> !has_site_from(items, i, rules),
    decreases items, items.len() - i,
{
    if 0 <= i < items.len() {
        let here = yield_at(items, i, rules);
        let sub = match items[i] {
            TokView::GroupTok { items: inner, .. } => scan_toks(inner, rules),
            _ => Seq::<LiteralView>::empty(),
        };
        let rest = scan_from(items, i + 1, rules);
        assert(scan_from(items, i, rules) == here + sub + rest);
        assert((here + sub + rest).len() == here.len() + sub.len() + rest.len());
        match items[i] {
            TokView::GroupTok { items: inner, .. } => {
                lemma_scan_empty_iff_no_site(inner, 0, rules);
                assert(scan_toks(inner, rules) == scan_from(inner, 0, rules));
                assert(has_site_toks(inner, rules) == has_site_from(inner, 0, rules));
            },
            _ => {},
        }
        lemma_scan_empty_iff_no_site(items, i + 1, rules);
    }
}

fn node_is_comma(n: &TokNode) -> (b: bool)
    ensures
        b == is_comma(tok_node_view(*n)),
{
    match n {
        TokNode::PunctTok { ch } => *ch == ',',
        _ => false,
    }
}

fn node_is_bang(n: &TokNode) -> (b: bool)
    ensures
        b == is_bang(tok_node_view(*n)),
{
    match n {
        TokNode::PunctTok { ch } => *ch == '!',
        _ => false,
    }
}

fn node_is_dot(n: &TokNode) -> (b: bool)
    ensures
        b == is_dot(tok_node_view(*n)),
{
    match n {
        TokNode::PunctTok { ch } => *ch == '.',
        _ => false,
    }
}

/// Whether `text` is exactly the keyword `fn`.
fn text_is_fn(text: &String) -> (b: bool)
    ensures
        b == (text@ == "fn"@),
{
    proof {
        reveal_strlit("fn");
    }
    let s = text.as_str();
    let n = s.unicode_len();
    if n == 2 && s.get_char(0) == 'f' && s.get_char(1) == 'n' {
        proof {
            assert(text@ =~= "fn"@);
        }
        true
    } else {
        false
    }
}

fn node_is_fn_kw(n: &TokNode) -> (b: bool)
    ensures
        b == is_fn_kw(tok_node_view(*n)),
{
    match n {
        TokNode::IdentTok { text, .. } => text_is_fn(text),
        _ => false,
    }
}

fn node_is_string_lit(n: &TokNode) -> (b: bool)
    ensures
        b == is_string_lit(tok_node_view(*n)),
{
    match n {
        TokNode::LitTok { raw, .. } => {
            let s = raw.as_str();
            let len = s.unicode_len();
            len >= 1 && (s.get_char(0) == '"' || s.get_char(0) == 'r')
        },
        _ => false,
    }
}

/// Finds the first rule whose kind and callee name match; executable twin
/// of [`first_match_from`].
#[verifier::loop_isolation(false)]
fn first_match(rules: &Vec<ExtractionRule>, kind: CallSiteKind, name: &String) -> (r: Option<
    usize,
>)
    ensures
        match r {
            Some(ix) => ix < rules@.len() && first_match_from(rules.deep_view(), 0, kind, name@)
                == Some(rules.deep_view()[ix as int]),
            None => first_match_from(rules.deep_view(), 0, kind, name@) is None,
        },
{
    let mut i: usize = 0;
    while i < rules.len()
        invariant
            i <= rules@.len(),
            first_match_from(rules.deep_view(), 0, kind, name@) == first_match_from(
                rules.deep_view(),
                i as int,
                kind,
                name@,
            ),
        decreases rules@.len() - i,
    {
        let rule = &rules[i];
        if rule.kind == kind && rule.callee_name == *name {
            return Some(i);
        }
        i += 1;
    }
    None
}

/// Walks the comma-separated arguments; executable twin of
/// [`plain_pick_from`].
fn plain_pick(g: &Vec<TokNode>, i: usize, k: usize) -> (r: Option<usize>)
    requires
        i <= g@.len(),
    ensures
        match r {
            Some(ix) => plain_pick_from(nodes_view(g@), i as int, k as int) == Some(ix as int)
                && ix < g@.len(),
            None => plain_pick_from(nodes_view(g@), i as int, k as int) is None,
        },
    decreases g@.len() - i,
{
    proof {
        lemma_nodes_view_index(g@);
    }
    if i >= g.len() {
        return None;
    }
    let single = node_is_string_lit(&g[i]) && (i + 1 == g.len() || node_is_comma(&g[i + 1]));
    if k == 0 {
        if single {
            Some(i)
        } else {
            None
        }
    } else if single && i + 1 < g.len() {
        plain_pick(g, i + 2, k - 1)
    } else {
        None
    }
}

/// Pushes what a literal token at `ix` of `g` yields under anchor line
/// `anchor`, if anything.
fn push_lit_norm(g: &Vec<TokNode>, ix: usize, anchor: usize, out: &mut Vec<ExtractedLiteral>)
    requires
        ix < g@.len(),
    ensures
        final(out).deep_view() == old(out).deep_view() + (match lit_norm(
            nodes_view(g@)[ix as int],
            anchor as int,
        ) {
            Some(l) => seq![l],
            None => Seq::<LiteralView>::empty(),
        }),
{
    proof {
        lemma_nodes_view_index(g@);
    }
    let ghost out0 = out.deep_view();
    if let TokNode::LitTok { raw, start_line, start_character, end_line, end_character } = &g[ix] {
        if let Some(lit) = crate::normalize::normalize(
            raw.as_str(),
            *start_line,
            *start_character,
            *end_line,
            *end_character,
            anchor,
        ) {
            out.push(lit);
            proof {
                assert(out.deep_view() =~= out0.push(lit@));
                assert(out0.push(lit@) =~= out0 + seq![lit@]);
            }
        } else {
            proof {
                assert(out.deep_view() =~= out0 + Seq::<LiteralView>::empty());
            }
        }
    } else {
        proof {
            assert(out.deep_view() =~= out0 + Seq::<LiteralView>::empty());
        }
    }
}

/// Pushes what a matched metaprogramming invocation yields; executable twin
/// of [`macro_yield`].
fn push_macro_yield(g: &Vec<TokNode>, k: usize, anchor: usize, out: &mut Vec<ExtractedLiteral>)
    ensures
        final(out).deep_view() == old(out).deep_view() + macro_yield(
            nodes_view(g@),
            k as int,
            anchor as int,
        ),
{
    proof {
        lemma_nodes_view_index(g@);
    }
    let ghost out0 = out.deep_view();
    let slot: u128 = 2u128 * (k as u128);
    if slot < g.len() as u128 {
        let ix = slot as usize;
        push_lit_norm(g, ix, anchor, out);
    } else {
        proof {
            assert(out.deep_view() =~= out0 + Seq::<LiteralView>::empty());
        }
    }
}

/// Pushes what a matched plain call yields; executable twin of
/// [`plain_yield`].
fn push_plain_yield(g: &Vec<TokNode>, k: usize, anchor: usize, out: &mut Vec<ExtractedLiteral>)
    ensures
        final(out).deep_view() == old(out).deep_view() + plain_yield(
            nodes_view(g@),
            k as int,
            anchor as int,
        ),
{
    proof {
        lemma_nodes_view_index(g@);
    }
    let ghost out0 = out.deep_view();
    match plain_pick(g, 0, k) {
        Some(ix) => {
            push_lit_norm(g, ix, anchor, out);
        },
        None => {
            proof {
                assert(out.deep_view() =~= out0 + Seq::<LiteralView>::empty());
            }
        },
    }
}

/// Pushes what the call site opening at position `i` yields, if a site
/// opens there at all; executable twin of [`yield_at`].
fn yield_site(nodes: &Vec<TokNode>, i: usize, rules: &Vec<ExtractionRule>, out: &mut Vec<
    ExtractedLiteral,
>)
    requires
        i < nodes@.len(),
    ensures
        final(out).deep_view() == old(out).deep_view() + yield_at(
            nodes_view(nodes@),
            i as int,
            rules.deep_view(),
        ),
{
    proof {
        lemma_nodes_view_index(nodes@);
    }
    let ghost items = nodes_view(nodes@);
    let ghost out0 = out.deep_view();
    let n = nodes.len();
    if let TokNode::IdentTok { text, line } = &nodes[i] {
        if n - i > 2 && node_is_bang(&nodes[i + 1]) {
            if let TokNode::GroupTok { items: g, .. } = &nodes[i + 2] {
                proof {
                    assert(macro_site_at(items, i as int));
                }
                match first_match(rules, CallSiteKind::MetaprogrammingInvocation, text) {
                    Some(rx) => {
                        let k = rules[rx].argument_index;
                        push_macro_yield(g, k, *line, out);
                    },
                    None => {
                        proof {
                            assert(out.deep_view() =~= out0 + Seq::<LiteralView>::empty());
                        }
                    },
                }
                return ;
            }
        }
        // Not a metaprogramming invocation; a plain call needs a
        // parenthesized group right after the identifier.
        if n - i > 1 {
            if let TokNode::GroupTok { paren, items: g } = &nodes[i + 1] {
                let mut excluded = false;
                if i >= 1 {
                    let prev = &nodes[i - 1];
                    excluded = node_is_dot(prev) || node_is_fn_kw(prev);
                }
                if *paren && !excluded {
                    proof {
                        assert(plain_site_at(items, i as int));
                    }
                    match first_match(rules, CallSiteKind::PlainCall, text) {
                        Some(rx) => {
                            let k = rules[rx].argument_index;
                            push_plain_yield(g, k, *line, out);
                        },
                        None => {
                            proof {
                                assert(out.deep_view() =~= out0 + Seq::<LiteralView>::empty());
                            }
                        },
                    }
                    return ;
                }
            }
        }
    }
    proof {
        assert(yield_at(items, i as int, rules.deep_view()) =~= Seq::<LiteralView>::empty());
        assert(out.deep_view() =~= out0 + Seq::<LiteralView>::empty());
    }
}

/// The walk from position `i` of `nodes` on, appending to `out` in
/// document order; executable twin of [`scan_from`].
fn scan_nodes(nodes: &Vec<TokNode>, i: usize, rules: &Vec<ExtractionRule>, out: &mut Vec<
    ExtractedLiteral,
>)
    requires
        i <= nodes@.len(),
    ensures
        final(out).deep_view() == old(out).deep_view() + scan_from(
            nodes_view(nodes@),
            i as int,
            rules.deep_view(),
        ),
    decreases crate::parser::size_from(nodes_view(nodes@), i as int),
{
    proof {
        lemma_nodes_view_index(nodes@);
    }
    let ghost items = nodes_view(nodes@);
    let ghost rv = rules.deep_view();
    if i >= nodes.len() {
        proof {
            assert(out.deep_view() =~= out.deep_view() + Seq::<LiteralView>::empty());
        }
        return ;
    }
    let ghost out0 = out.deep_view();
    yield_site(nodes, i, rules, out);
    let ghost after_yield = out.deep_view();
    if let TokNode::GroupTok { items: g, .. } = &nodes[i] {
        proof {
            assert(crate::parser::tok_size(items[i as int]) == 1 + crate::parser::size_from(
                nodes_view(g@),
                0,
            ));
            assert(crate::parser::size_from(items, i as int) >= crate::parser::tok_size(
                items[i as int],
            ));
        }
        scan_nodes(g, 0, rules, out);
        proof {
            assert(scan_toks(nodes_view(g@), rv) == scan_from(nodes_view(g@), 0, rv));
        }
    }
    let ghost after_sub = out.deep_view();
    proof {
        assert(crate::parser::size_from(items, i as int) == crate::parser::tok_size(
            items[i as int],
        ) + crate::parser::size_from(items, i as int + 1));
        assert(crate::parser::tok_size(items[i as int]) >= 1);
    }
    scan_nodes(nodes, i + 1, rules, out);
    proof {
        let here = yield_at(items, i as int, rv);
        let sub = match items[i as int] {
            TokView::GroupTok { items: inner, .. } => scan_toks(inner, rv),
            _ => Seq::<LiteralView>::empty(),
        };
        let rest = scan_from(items, i as int + 1, rv);
        assert(after_yield == out0 + here);
        assert(after_sub =~= out0 + here + sub);
        assert(out.deep_view() =~= out0 + (here + sub + rest));
        assert(scan_from(items, i as int, rv) == here + sub + rest);
    }
}

/// Runs the matcher over a whole token tree and returns everything it
/// yields, in document order.
pub fn scan_tree(nodes: &Vec<TokNode>, rules: &Vec<ExtractionRule>) -> (out: Vec<ExtractedLiteral>)
    ensures
        out.deep_view() == scan_toks(nodes_view(nodes@), rules.deep_view()),
{
    let mut out: Vec<ExtractedLiteral> = Vec::new();
    scan_nodes(nodes, 0, rules, &mut out);
    proof {
        assert(out.deep_view() =~= scan_toks(nodes_view(nodes@), rules.deep_view()));
    }
    out
}

} // verus!
