//! The parser collaborators, taken on trust, and the verified construction
//! of the engine's token tree from their output.
//!
//! The engine consumes two collaborator functions: a parse check over the
//! whole source file, and a tokenizer whose token trees the engine converts
//! into its own [`TokNode`] tree.  Both are deterministic functions of the
//! source text, so their results are named by bodiless spec functions:
//! [`parses`] and [`lex_model`] name what the text gives, [`stream_model`]
//! and [`tt_model`] name what a stream or token holds.

use crate::tokens::{TokNode, TokView, lemma_nodes_view_index, nodes_view, tok_node_view};
use vstd::prelude::*;

verus! {

#[verifier::external_type_specification]
#[verifier::external_body]
pub struct ExTokenStream(proc_macro2::TokenStream);

#[verifier::external_type_specification]
#[verifier::external_body]
pub struct ExTokenTree(proc_macro2::TokenTree);

/// Whether the text is a syntactically valid source file.
pub uninterp spec fn parses(s: Seq<char>) -> bool;

/// The token-tree model of the text, or `None` where tokenization fails.
pub uninterp spec fn lex_model(s: Seq<char>) -> Option<Seq<TokView>>;

/// The model of the tokens a stream holds, in order.
pub uninterp spec fn stream_model(ts: proc_macro2::TokenStream) -> Seq<TokView>;

/// The model of one token of a stream.
pub uninterp spec fn tt_model(t: proc_macro2::TokenTree) -> TokView;

/// Relies on syn::parse_file: it returns `Ok` exactly on syntactically
/// valid Rust source text, deterministically.
#[verifier::external_body]
pub fn parse_gate(s: &str) -> (r: bool)
    ensures
        r == parses(s@),
{
    syn::parse_file(s).is_ok()
}

/// Relies on proc_macro2::TokenStream's FromStr: it tokenizes the text
/// deterministically, and fails exactly where the text does not lex (for
/// one, on unbalanced delimiters).
#[verifier::external_body]
pub fn lex_stream(s: &str) -> (r: Option<proc_macro2::TokenStream>)
    ensures
        match r {
            Some(ts) => lex_model(s@) == Some(stream_model(ts)),
            None => lex_model(s@) is None,
        },
{
    match s.parse::<proc_macro2::TokenStream>() {
        Ok(ts) => Some(ts),
        Err(_) => None,
    }
}

/// One token read out of a stream: the fields the engine needs, with a
/// group's inner stream left to be read in turn.
pub enum RawTok {
    Ident { text: String, line: usize },
    Punct { ch: char },
    Lit {
        raw: String,
        start_line: usize,
        start_character: usize,
        end_line: usize,
        end_character: usize,
    },
    Group { paren: bool, inner: proc_macro2::TokenStream },
}

/// How a read-out token relates to the model of the token it came from.
/// Line numbers reported by the tokenizer are 1-indexed, hence at least 1.
pub open spec fn tok_fits(r: RawTok, m: TokView) -> bool {
    match r {
        RawTok::Ident { text, line } => m == (TokView::IdentTok { text: text@, line: line as int })
            && line >= 1,
        RawTok::Punct { ch } => m == (TokView::PunctTok { ch }),
        RawTok::Lit { raw, start_line, start_character, end_line, end_character } => m == (
        TokView::LitTok {
            raw: raw@,
            start_line: start_line as int,
            start_character: start_character as int,
            end_line: end_line as int,
            end_character: end_character as int,
        }) && start_line >= 1 && end_line >= 1,
        RawTok::Group { paren, inner } => m == (TokView::GroupTok {
            paren,
            items: stream_model(inner),
        }),
    }
}

/// Relies on proc_macro2::TokenStream's IntoIterator: it yields the
/// stream's tokens in order.
#[verifier::external_body]
fn stream_to_vec(ts: proc_macro2::TokenStream) -> (r: Vec<proc_macro2::TokenTree>)
    ensures
        r@.len() == stream_model(ts).len(),
        forall|i: int| 0 <= i < r@.len() ==> tt_model(r@[i]) == stream_model(ts)[i],
{
    ts.into_iter().collect()
}

/// Relies on proc_macro2::TokenTree's variants and their accessors:
/// Ident::to_string and Ident::span, Punct::as_char, Literal::to_string
/// (the token's text verbatim) and Literal::span, Group::delimiter and
/// Group::stream, and Span::start/Span::end, whose lines are 1-indexed and
/// whose columns are 0-indexed in characters, the end exclusive.
#[verifier::external_body]
fn read_token(t: &proc_macro2::TokenTree) -> (r: RawTok)
    ensures
        tok_fits(r, tt_model(*t)),
{
    match t {
        proc_macro2::TokenTree::Ident(x) => RawTok::Ident { text: x.to_string(), line: x.span().start().line },
        proc_macro2::TokenTree::Punct(x) => RawTok::Punct { ch: x.as_char() },
        proc_macro2::TokenTree::Literal(x) => {
            let (s, e) = (x.span().start(), x.span().end());
            RawTok::Lit { raw: x.to_string(), start_line: s.line, start_character: s.column, end_line: e.line, end_character: e.column }
        },
        proc_macro2::TokenTree::Group(x) => RawTok::Group { paren: x.delimiter() == proc_macro2::Delimiter::Parenthesis, inner: x.stream() },
    }
}

/// The size of one token's model: itself and everything a group holds.
pub open spec fn tok_size(t: TokView) -> nat
    decreases t, 0int,
{
    match t {
        TokView::GroupTok { items, .. } => 1 + size_from(items, 0),
        _ => 1,
    }
}

/// The summed size of a model sequence from position `i` on.
pub open spec fn size_from(s: Seq<TokView>, i: int) -> nat
    decreases s, s.len() - i,
{
    if 0 <= i < s.len() {
        tok_size(s[i]) + size_from(s, i + 1)
    } else {
        0
    }
}

/// Each element's size is bounded by the sequence's size from any earlier
/// position.
proof fn lemma_size_from_bound(s: Seq<TokView>, i: int, j: int)
    requires
        0 <= i <= j < s.len(),
    ensures
        tok_size(s[j]) <= size_from(s, i),
    decreases j - i,
{
    if i < j {
        lemma_size_from_bound(s, i + 1, j);
    }
}

/// Reads a whole token stream into the engine's own tree.  The tree's model
/// is the stream's model.
#[verifier::loop_isolation(false)]
pub fn build_nodes(ts: proc_macro2::TokenStream) -> (nodes: Vec<TokNode>)
    ensures
        nodes_view(nodes@) == stream_model(ts),
    decreases size_from(stream_model(ts), 0),
{
    let ghost model = stream_model(ts);
    let toks = stream_to_vec(ts);
    let mut nodes: Vec<TokNode> = Vec::new();
    let mut j: usize = 0;
    while j < toks.len()
        invariant
            toks@.len() == model.len(),
            forall|i: int| 0 <= i < model.len() ==> tt_model(toks@[i]) == model[i],
            j <= toks.len(),
            nodes@.len() == j,
            forall|i: int| 0 <= i < j ==> tok_node_view(nodes@[i]) == model[i],
        decreases toks@.len() - j,
    {
        let t = read_token(&toks[j]);
        proof {
            assert(tok_fits(t, model[j as int]));
        }
        match t {
            RawTok::Ident { text, line } => {
                nodes.push(TokNode::IdentTok { text, line });
            },
            RawTok::Punct { ch } => {
                nodes.push(TokNode::PunctTok { ch });
            },
            RawTok::Lit { raw, start_line, start_character, end_line, end_character } => {
                nodes.push(
                    TokNode::LitTok { raw, start_line, start_character, end_line, end_character },
                );
            },
            RawTok::Group { paren, inner } => {
                proof {
                    lemma_size_from_bound(model, 0, j as int);
                    assert(tok_size(model[j as int]) == 1 + size_from(stream_model(inner), 0));
                    assert(size_from(stream_model(inner), 0) < size_from(model, 0));
                }
                let items = build_nodes(inner);
                nodes.push(TokNode::GroupTok { paren, items });
            },
        }
        j += 1;
    }
    proof {
        lemma_nodes_view_index(nodes@);
        assert(nodes_view(nodes@) =~= model);
    }
    nodes
}

} // verus!
