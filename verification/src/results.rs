//! The records the engine returns: a source range that covers a literal's
//! content, the content itself, and the line of the callee identifier.

use vstd::prelude::*;

verus! {

/// A position in the source file, 0-indexed line and 0-indexed column in
/// characters.
#[derive(Clone, Copy, PartialEq, Eq, Structural, Debug)]
pub struct SourcePosition {
    pub line: usize,
    pub character: usize,
}

/// A half-open range in the source file: `start` points at the first
/// character of the content, `end` one past its last character.
#[derive(Clone, Copy, PartialEq, Eq, Structural, Debug)]
pub struct SourceRange {
    pub start: SourcePosition,
    pub end: SourcePosition,
}

/// Mathematical model of an [`ExtractedLiteral`].
pub struct LiteralView {
    pub start_line: int,
    pub start_character: int,
    pub end_line: int,
    pub end_character: int,
    pub content: Seq<char>,
    pub method_line: int,
}

/// One extracted literal: the range of its content (delimiters excluded),
/// the content with escape sequences left verbatim, and the 0-indexed line
/// of the callee identifier.
#[derive(Debug)]
pub struct ExtractedLiteral {
    pub code_range: SourceRange,
    pub content: String,
    pub method_line: usize,
}

impl View for ExtractedLiteral {
    type V = LiteralView;

    open spec fn view(&self) -> LiteralView {
        LiteralView {
            start_line: self.code_range.start.line as int,
            start_character: self.code_range.start.character as int,
            end_line: self.code_range.end.line as int,
            end_character: self.code_range.end.character as int,
            content: self.content@,
            method_line: self.method_line as int,
        }
    }
}

impl DeepView for ExtractedLiteral {
    type V = LiteralView;

    open spec fn deep_view(&self) -> LiteralView {
        self.view()
    }
}

} // verus!
