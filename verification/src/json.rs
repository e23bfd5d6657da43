//! The wire format: decoding caller-supplied rule records from JSON text,
//! and encoding extracted records as JSON text.
//!
//! A rule record is a JSON object `{"functionName": ..., "sqlArgNo": ...,
//! "isMacro": ...}`.  An extracted record is encoded as an object holding
//! `code_range.start.{line,character}`, `code_range.end.{line,character}`,
//! `content` and `method_line`, in that field order, with the content's
//! quote, backslash and control characters escaped.

use crate::results::{ExtractedLiteral, LiteralView};
use crate::rules::{ExtractionRule, RuleView, rule_new_spec};
use vstd::prelude::*;

verus! {

/// The fields of one JSON rule record, or `None` where the text is not a
/// JSON object carrying them.
pub uninterp spec fn rule_fields_of(s: Seq<char>) -> Option<(Seq<char>, u64, bool)>;

/// Relies on serde_json::from_str, serde_json::Value::get, Value::as_str,
/// Value::as_u64 and Value::as_bool: reads the callee name, argument
/// position and call-site kind out of one JSON rule record, `None` where a
/// field is missing or of the wrong type; deterministic in the text.
#[verifier::external_body]
fn decode_rule_fields(s: &String) -> (r: Option<(String, u64, bool)>)
    ensures
        match r {
            Some(t) => rule_fields_of(s@) == Some((t.0@, t.1, t.2)),
            None => rule_fields_of(s@) is None,
        },
{
    let v: serde_json::Value = match serde_json::from_str(s.as_str()) {
        Ok(v) => v,
        Err(_) => return None,
    };
    let name = match v.get("functionName") { Some(x) => x.as_str(), None => None };
    let idx = match v.get("sqlArgNo") { Some(x) => x.as_u64(), None => None };
    let mac = match v.get("isMacro") { Some(x) => x.as_bool(), None => None };
    match (name, idx, mac) {
        (Some(n), Some(i), Some(m)) => Some((n.to_string(), i, m)),
        _ => None,
    }
}

/// What one rule record's text decodes and validates to.
pub open spec fn decoded_rule(s: Seq<char>) -> Option<RuleView> {
    match rule_fields_of(s) {
        Some(f) => rule_new_spec(f.0, f.1, f.2),
        None => None,
    }
}

/// What a list of rule records decodes to, from position `i` on: `None` as
/// soon as any record is malformed.
pub open spec fn decoded_rules_from(cs: Seq<Seq<char>>, i: int) -> Option<Seq<RuleView>>
    decreases cs.len() - i,
{
    if !(0 <= i < cs.len()) {
        Some(Seq::empty())
    } else {
        match decoded_rule(cs[i]) {
            Some(r) => match decoded_rules_from(cs, i + 1) {
                Some(rest) => Some(seq![r] + rest),
                None => None,
            },
            None => None,
        }
    }
}

/// Decodes a caller-supplied list of JSON rule records into a rule set;
/// `None` where any record fails to decode or validate, so that the caller
/// fails the whole extraction rather than matching with a partial rule set.
#[verifier::loop_isolation(false)]
pub fn decode_rules(cs: &Vec<String>) -> (r: Option<Vec<ExtractionRule>>)
    ensures
        match r {
            Some(rules) => decoded_rules_from(cs.deep_view(), 0) == Some(rules.deep_view()),
            None => decoded_rules_from(cs.deep_view(), 0) is None,
        },
{
    let ghost cv = cs.deep_view();
    let mut out: Vec<ExtractionRule> = Vec::new();
    let mut i: usize = 0;
    while i < cs.len()
        invariant
            i <= cs@.len(),
            decoded_rules_from(cv, 0) == (match decoded_rules_from(cv, i as int) {
                Some(rest) => Some(out.deep_view() + rest),
                None => None::<Seq<RuleView>>,
            }),
        decreases cs@.len() - i,
    {
        let fields = match decode_rule_fields(&cs[i]) {
            Some(f) => f,
            None => {
                return None;
            },
        };
        let rule = match ExtractionRule::new(fields.0, fields.1, fields.2) {
            Some(rule) => rule,
            None => {
                return None;
            },
        };
        let ghost out_before = out.deep_view();
        out.push(rule);
        proof {
            assert(out.deep_view() =~= out_before + seq![rule@]);
            assert(decoded_rule(cv[i as int]) == Some(rule@));
            if let Some(rest) = decoded_rules_from(cv, i as int + 1) {
                assert(out_before + (seq![rule@] + rest) =~= out.deep_view() + rest);
            }
        }
        i += 1;
    }
    proof {
        assert(decoded_rules_from(cv, i as int) == Some(Seq::<RuleView>::empty()));
        assert(out.deep_view() + Seq::<RuleView>::empty() =~= out.deep_view());
    }
    Some(out)
}

/// Relies on String::push: it appends exactly the one character.
#[verifier::external_body]
fn push_char(s: &mut String, c: char)
    ensures
        final(s)@ == old(s)@.push(c),
{
    s.push(c);
}

/// The hexadecimal digit character for `d` (lower case), for `0 <= d < 16`.
pub open spec fn hex_digit(d: int) -> char {
    if d < 10 {
        ((48 + d) as u8) as char
    } else {
        ((87 + d) as u8) as char
    }
}

/// How one character of a JSON string is written: quote and backslash get a
/// backslash escape, the control characters for backspace, tab, line feed,
/// form feed and carriage return their two-character escapes, every other
/// control character a `\u00..` escape, and everything else stands as it
/// is.
pub open spec fn escape_char(c: char) -> Seq<char> {
    if c == '"' {
        seq!['\\', '"']
    } else if c == '\\' {
        seq!['\\', '\\']
    } else if c == '\u{8}' {
        seq!['\\', 'b']
    } else if c == '\t' {
        seq!['\\', 't']
    } else if c == '\n' {
        seq!['\\', 'n']
    } else if c == '\u{c}' {
        seq!['\\', 'f']
    } else if c == '\r' {
        seq!['\\', 'r']
    } else if (c as int) < 32 {
        seq!['\\', 'u', '0', '0', hex_digit(c as int / 16), hex_digit(c as int % 16)]
    } else {
        seq![c]
    }
}

/// The escaped form of the first `i` characters of `s`.
pub open spec fn escaped_upto(s: Seq<char>, i: int) -> Seq<char>
    decreases i,
{
    if i <= 0 {
        Seq::empty()
    } else {
        escaped_upto(s, i - 1) + escape_char(s[i - 1])
    }
}

/// The escaped form of a whole string.
pub open spec fn json_escape(s: Seq<char>) -> Seq<char> {
    escaped_upto(s, s.len() as int)
}

/// The decimal digits of `n`, most significant first.
pub open spec fn dec_of(n: nat) -> Seq<char>
    decreases n,
{
    if n < 10 {
        seq![hex_digit(n as int)]
    } else {
        dec_of(n / 10).push(hex_digit(n as int % 10))
    }
}

/// The decimal digits of a non-negative position value.
pub open spec fn dec_int(x: int) -> Seq<char> {
    dec_of((if x >= 0 { x } else { 0 }) as nat)
}

/// The JSON encoding of one extracted record.
pub open spec fn json_of_literal(l: LiteralView) -> Seq<char> {
    "{\"code_range\":{\"start\":{\"line\":"@ + dec_int(l.start_line) + ",\"character\":"@
        + dec_int(l.start_character) + "},\"end\":{\"line\":"@ + dec_int(l.end_line)
        + ",\"character\":"@ + dec_int(l.end_character) + "}},\"content\":\""@ + json_escape(
        l.content,
    ) + "\",\"method_line\":"@ + dec_int(l.method_line) + "}"@
}

/// The hexadecimal digit character for `d`; executable twin of
/// [`hex_digit`].
fn hex_char(d: u8) -> (c: char)
    requires
        d < 16,
    ensures
        c == hex_digit(d as int),
{
    if d < 10 {
        (48 + d) as char
    } else {
        (87 + d) as char
    }
}

/// Appends the decimal digits of `n`; executable twin of [`dec_of`].
fn push_dec(s: &mut String, n: usize)
    ensures
        final(s)@ == old(s)@ + dec_of(n as nat),
    decreases n,
{
    if n < 10 {
        push_char(s, hex_char((n % 16) as u8));
        proof {
            assert(old(s)@.push(hex_digit(n as int)) =~= old(s)@ + dec_of(n as nat));
        }
    } else {
        push_dec(s, n / 10);
        push_char(s, hex_char((n % 10) as u8));
        proof {
            assert((old(s)@ + dec_of((n / 10) as nat)).push(hex_digit(n as int % 10)) =~= old(s)@
                + dec_of(n as nat));
        }
    }
}

/// Appends the escaped form of `txt`; executable twin of [`json_escape`].
#[verifier::loop_isolation(false)]
fn push_escaped(txt: &str, out: &mut String)
    ensures
        final(out)@ == old(out)@ + json_escape(txt@),
{
    let n = txt.unicode_len();
    let mut i: usize = 0;
    while i < n
        invariant
            i <= n,
            n == txt@.len(),
            out@ == old(out)@ + escaped_upto(txt@, i as int),
        decreases n - i,
    {
        let ghost before = out@;
        let c = txt.get_char(i);
        if c == '"' {
            push_char(out, '\\');
            push_char(out, '"');
        } else if c == '\\' {
            push_char(out, '\\');
            push_char(out, '\\');
        } else if c == '\u{8}' {
            push_char(out, '\\');
            push_char(out, 'b');
        } else if c == '\t' {
            push_char(out, '\\');
            push_char(out, 't');
        } else if c == '\n' {
            push_char(out, '\\');
            push_char(out, 'n');
        } else if c == '\u{c}' {
            push_char(out, '\\');
            push_char(out, 'f');
        } else if c == '\r' {
            push_char(out, '\\');
            push_char(out, 'r');
        } else if (c as u32) < 32 {
            let d = c as u32;
            push_char(out, '\\');
            push_char(out, 'u');
            push_char(out, '0');
            push_char(out, '0');
            push_char(out, hex_char((d / 16) as u8));
            push_char(out, hex_char((d % 16) as u8));
        } else {
            push_char(out, c);
        }
        proof {
            assert(out@ =~= before + escape_char(txt@[i as int]));
            assert(before + escape_char(txt@[i as int]) =~= old(out)@ + escaped_upto(
                txt@,
                i as int + 1,
            ));
        }
        i += 1;
    }
}

/// Encodes one extracted record as JSON text; executable twin of
/// [`json_of_literal`].
pub fn literal_to_json(lit: &ExtractedLiteral) -> (s: String)
    ensures
        s@ == json_of_literal(lit@),
{
    let mut s = String::new();
    s.append("{\"code_range\":{\"start\":{\"line\":");
    push_dec(&mut s, lit.code_range.start.line);
    s.append(",\"character\":");
    push_dec(&mut s, lit.code_range.start.character);
    s.append("},\"end\":{\"line\":");
    push_dec(&mut s, lit.code_range.end.line);
    s.append(",\"character\":");
    push_dec(&mut s, lit.code_range.end.character);
    s.append("}},\"content\":\"");
    push_escaped(lit.content.as_str(), &mut s);
    s.append("\",\"method_line\":");
    push_dec(&mut s, lit.method_line);
    s.append("}");
    proof {
        assert(s@ =~= json_of_literal(lit@));
    }
    s
}

} // verus!
