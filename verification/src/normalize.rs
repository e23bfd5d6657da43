//! The literal normalizer: recognizes a raw token's delimiter style, strips
//! the delimiters, and adjusts the token's source range so that it covers
//! the content alone.
//!
//! Two delimiter styles are recognized:
//! - plain style: one quote character at each end; and
//! - raw style: a marker letter, K repeated marker characters and a quote on
//!   the opening side, the mirrored quote and K markers on the closing side.
//!
//! The start column advances by exactly the opening delimiter's length and
//! the end column recedes by exactly the closing delimiter's length; line
//! numbers are only converted from the tokenizer's 1-indexed convention to
//! the reported 0-indexed one.

use crate::results::LiteralView;
use vstd::prelude::*;

verus! {

/// The number of consecutive `#` characters in `raw` from position `j` on.
pub open spec fn hash_run(raw: Seq<char>, j: int) -> int
    decreases raw.len() - j,
{
    if 0 <= j < raw.len() && raw[j] == '#' {
        1 + hash_run(raw, j + 1)
    } else {
        0
    }
}

/// The delimiter lengths `(opening, closing)` of a raw literal token, or
/// `None` where neither style is recognized.
pub open spec fn delim_of(raw: Seq<char>) -> Option<(int, int)> {
    if raw.len() >= 2 && raw[0] == '"' && raw[raw.len() - 1] == '"' {
        Some((1int, 1int))
    } else if raw.len() >= 1 && raw[0] == 'r' {
        let k = hash_run(raw, 1);
        if 1 + k < raw.len() && raw[1 + k] == '"' && raw.len() >= 2 * k + 3 && raw[raw.len() - 1
            - k] == '"' && (forall|j: int| raw.len() - k <= j < raw.len() ==> raw[j] == '#') {
            Some((k + 2, k + 1))
        } else {
            None
        }
    } else {
        None
    }
}

/// The content of a recognized token: the text between the delimiters.
pub open spec fn content_of(raw: Seq<char>, open_len: int, close_len: int) -> Seq<char> {
    raw.subrange(open_len, raw.len() - close_len)
}

/// What normalization yields for a literal token with raw text `raw` whose
/// span runs from `(start_line, start_character)` to `(end_line,
/// end_character)` (lines 1-indexed, columns 0-indexed, end exclusive),
/// standing in a call site whose callee identifier is on `ident_line`
/// (1-indexed).  `None` where the delimiter style is not recognized or the
/// span does not fit the token.
pub open spec fn normalize_spec(
    raw: Seq<char>,
    start_line: int,
    start_character: int,
    end_line: int,
    end_character: int,
    ident_line: int,
) -> Option<LiteralView> {
    match delim_of(raw) {
        Some((open_len, close_len)) => {
            if start_line >= 1 && end_line >= 1 && ident_line >= 1 && end_character >= close_len
                && start_character + open_len <= usize::MAX {
                Some(
                    LiteralView {
                        start_line: start_line - 1,
                        start_character: start_character + open_len,
                        end_line: end_line - 1,
                        end_character: end_character - close_len,
                        content: content_of(raw, open_len, close_len),
                        method_line: ident_line - 1,
                    },
                )
            } else {
                None
            }
        },
        None => None,
    }
}

/// Counts the `#` run from character `j` on; executable twin of
/// [`hash_run`].
fn count_hashes(raw: &str, j: usize, n: usize) -> (k: usize)
    requires
        n == raw@.len(),
        j <= n,
    ensures
        k == hash_run(raw@, j as int),
        k <= n - j,
    decreases n - j,
{
    if j < n && raw.get_char(j) == '#' {
        1 + count_hashes(raw, j + 1, n)
    } else {
        0
    }
}

/// Recognizes the delimiter style of `raw`; executable twin of
/// [`delim_of`].
fn delimiters(raw: &str) -> (r: Option<(usize, usize)>)
    ensures
        match r {
            Some(d) => {
                &&& delim_of(raw@) == Some((d.0 as int, d.1 as int))
                &&& d.0 + d.1 <= raw@.len()
            },
            None => delim_of(raw@) is None,
        },
{
    let n = raw.unicode_len();
    if n >= 2 && raw.get_char(0) == '"' && raw.get_char(n - 1) == '"' {
        Some((1, 1))
    } else if n >= 1 && raw.get_char(0) == 'r' {
        let k = count_hashes(raw, 1, n);
        if k <= n - 1 && 1 + k < n && raw.get_char(1 + k) == '"' && n >= 3 && k <= (n - 3) / 2
            && raw.get_char(n - 1 - k) == '"' && trailing_hashes(raw, k, n) {
            Some((k + 2, k + 1))
        } else {
            None
        }
    } else {
        None
    }
}

/// Whether the last `k` characters of `raw` are all `#`.
fn trailing_hashes(raw: &str, k: usize, n: usize) -> (r: bool)
    requires
        n == raw@.len(),
        k <= n,
    ensures
        r == (forall|j: int| n - k <= j < n ==> raw@[j] == '#'),
{
    let mut j: usize = n - k;
    while j < n
        invariant
            n == raw@.len(),
            n - k <= j <= n,
            forall|m: int| n - k <= m < j ==> raw@[m] == '#',
        decreases n - j,
    {
        if raw.get_char(j) != '#' {
            return false;
        }
        j += 1;
    }
    true
}

/// A run of `k` marker characters.
pub open spec fn repeat_hashes(k: int) -> Seq<char>
    decreases k,
{
    if k <= 0 {
        Seq::empty()
    } else {
        repeat_hashes(k - 1).push('#')
    }
}

/// The opening delimiter sequence of a recognized style, by its length:
/// one quote for the plain style, the marker letter, the marker run and a
/// quote for the raw style.
pub open spec fn open_delim(open_len: int) -> Seq<char> {
    if open_len == 1 {
        seq!['"']
    } else {
        seq!['r'] + repeat_hashes(open_len - 2) + seq!['"']
    }
}

/// The closing delimiter sequence of a recognized style, by its length: a
/// quote followed by the marker run.
pub open spec fn close_delim(close_len: int) -> Seq<char> {
    seq!['"'] + repeat_hashes(close_len - 1)
}

/// A marker run holds exactly its `#` characters.
pub proof fn lemma_repeat_hashes(k: int)
    ensures
        repeat_hashes(k).len() == (if k >= 0 {
            k
        } else {
            0
        }),
        forall|j: int| 0 <= j < repeat_hashes(k).len() ==> repeat_hashes(k)[j] == '#',
    decreases k,
{
    if k > 0 {
        lemma_repeat_hashes(k - 1);
    }
}

/// The characters a `#` run covers are `#`, and the run stops at the first
/// character that is no `#`.
pub proof fn lemma_hash_run(raw: Seq<char>, j: int)
    requires
        0 <= j <= raw.len(),
    ensures
        hash_run(raw, j) >= 0,
        j + hash_run(raw, j) <= raw.len(),
        forall|m: int| j <= m < j + hash_run(raw, j) ==> raw[m] == '#',
        j + hash_run(raw, j) == raw.len() || raw[j + hash_run(raw, j)] != '#',
    decreases raw.len() - j,
{
    if j < raw.len() && raw[j] == '#' {
        lemma_hash_run(raw, j + 1);
    }
}

/// Delimiter-stripping round trip: re-wrapping a recognized token's content
/// in the delimiter sequences of its recognized style reproduces the raw
/// token exactly.
pub proof fn lemma_round_trip(raw: Seq<char>)
    ensures
        match delim_of(raw) {
            Some(d) => raw == open_delim(d.0) + content_of(raw, d.0, d.1) + close_delim(d.1),
            None => true,
        },
{
    if raw.len() >= 2 && raw[0] == '"' && raw[raw.len() - 1] == '"' {
        assert(repeat_hashes(0) =~= Seq::<char>::empty());
        assert(raw =~= open_delim(1) + content_of(raw, 1, 1) + close_delim(1));
    } else if raw.len() >= 1 && raw[0] == 'r' {
        let k = hash_run(raw, 1);
        lemma_hash_run(raw, 1);
        lemma_repeat_hashes(k);
        if 1 + k < raw.len() && raw[1 + k] == '"' && raw.len() >= 2 * k + 3 && raw[raw.len() - 1
            - k] == '"' && (forall|j: int| raw.len() - k <= j < raw.len() ==> raw[j] == '#') {
            assert(open_delim(k + 2) =~= seq!['r'] + repeat_hashes(k) + seq!['"']);
            assert(raw =~= open_delim(k + 2) + content_of(raw, k + 2, k + 1) + close_delim(k + 1));
        }
    }
}

/// Normalizes one literal token; executable twin of [`normalize_spec`].
pub fn normalize(
    raw: &str,
    start_line: usize,
    start_character: usize,
    end_line: usize,
    end_character: usize,
    ident_line: usize,
) -> (r: Option<crate::results::ExtractedLiteral>)
    ensures
        match r {
            Some(lit) => normalize_spec(
                raw@,
                start_line as int,
                start_character as int,
                end_line as int,
                end_character as int,
                ident_line as int,
            ) == Some(lit@),
            None => normalize_spec(
                raw@,
                start_line as int,
                start_character as int,
                end_line as int,
                end_character as int,
                ident_line as int,
            ) is None,
        },
{
    match delimiters(raw) {
        Some((open_len, close_len)) => {
            if start_line >= 1 && end_line >= 1 && ident_line >= 1 && end_character >= close_len
                && start_character <= usize::MAX - open_len {
                let n = raw.unicode_len();
                let content = raw.substring_char(open_len, n - close_len).to_owned();
                Some(
                    crate::results::ExtractedLiteral {
                        code_range: crate::results::SourceRange {
                            start: crate::results::SourcePosition {
                                line: start_line - 1,
                                character: start_character + open_len,
                            },
                            end: crate::results::SourcePosition {
                                line: end_line - 1,
                                character: end_character - close_len,
                            },
                        },
                        content,
                        method_line: ident_line - 1,
                    },
                )
            } else {
                None
            }
        },
        None => None,
    }
}

} // verus!
