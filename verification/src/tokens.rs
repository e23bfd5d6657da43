//! The engine's own view of a parsed source file: a tree of tokens.
//!
//! A group token holds the tokens between a pair of delimiters; every other
//! token is a leaf.  Positions carried here are as the tokenizer reports
//! them: lines 1-indexed, columns 0-indexed in characters.

use vstd::prelude::*;

verus! {

/// Mathematical model of a token tree node.
pub enum TokView {
    IdentTok { text: Seq<char>, line: int },
    PunctTok { ch: char },
    LitTok {
        raw: Seq<char>,
        start_line: int,
        start_character: int,
        end_line: int,
        end_character: int,
    },
    GroupTok { paren: bool, items: Seq<TokView> },
}

/// A token tree node as the engine walks it.
pub enum TokNode {
    IdentTok { text: String, line: usize },
    PunctTok { ch: char },
    LitTok {
        raw: String,
        start_line: usize,
        start_character: usize,
        end_line: usize,
        end_character: usize,
    },
    GroupTok { paren: bool, items: Vec<TokNode> },
}

/// The model of one node.
pub open spec fn tok_node_view(n: TokNode) -> TokView
    decreases n, 0int,
{
    match n {
        TokNode::IdentTok { text, line } => TokView::IdentTok { text: text@, line: line as int },
        TokNode::PunctTok { ch } => TokView::PunctTok { ch },
        TokNode::LitTok { raw, start_line, start_character, end_line, end_character } => (
        TokView::LitTok {
            raw: raw@,
            start_line: start_line as int,
            start_character: start_character as int,
            end_line: end_line as int,
            end_character: end_character as int,
        }),
        TokNode::GroupTok { paren, items } => (TokView::GroupTok {
            paren,
            items: nodes_view(items@),
        }),
    }
}

/// The model of a node sequence, element by element.
pub open spec fn nodes_view(ns: Seq<TokNode>) -> Seq<TokView>
    decreases ns, 1int,
{
    if ns.len() == 0 {
        Seq::empty()
    } else {
        seq![tok_node_view(ns[0])] + nodes_view(ns.subrange(1, ns.len() as int))
    }
}

/// The model of a node sequence is as long as the sequence and holds the
/// model of each node, in place.
pub proof fn lemma_nodes_view_index(ns: Seq<TokNode>)
    ensures
        nodes_view(ns).len() == ns.len(),
        forall|i: int| 0 <= i < ns.len() ==> nodes_view(ns)[i] == tok_node_view(ns[i]),
    decreases ns.len(),
{
    if ns.len() > 0 {
        lemma_nodes_view_index(ns.subrange(1, ns.len() as int));
    }
}

} // verus!
