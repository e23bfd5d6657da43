//! The wire format: rule-record decoding, record encoding, and the
//! demonstration helper.

use sql_extraction::demo::getdbconn;
use sql_extraction::extract::extract_sql_list;
use sql_extraction::json::literal_to_json;
use sql_extraction::results::{ExtractedLiteral, SourcePosition, SourceRange};

#[test]
fn malformed_config_fails_whole_call() {
    let source = r#"fn main() { let x = sqlx::query!("SELECT 1"); }"#;
    let result = extract_sql_list(source, Some(vec![String::from("not a rule")]));
    assert_eq!(result.len(), 0);
}

#[test]
fn one_malformed_config_among_valid_ones_fails_whole_call() {
    let source = r#"fn main() { let x = sqlx::query!("SELECT 1"); }"#;
    let result = extract_sql_list(
        source,
        Some(vec![
            String::from(r#"{"functionName":"query","sqlArgNo":0,"isMacro":true}"#),
            String::from(r#"{"functionName":"query_as"}"#),
        ]),
    );
    assert_eq!(result.len(), 0);
}

#[test]
fn negative_argument_index_fails_whole_call() {
    let source = r#"fn main() { let x = sqlx::query!("SELECT 1"); }"#;
    let result = extract_sql_list(
        source,
        Some(vec![String::from(
            r#"{"functionName":"query","sqlArgNo":-1,"isMacro":true}"#,
        )]),
    );
    assert_eq!(result.len(), 0);
}

#[test]
fn wrongly_typed_config_field_fails_whole_call() {
    let source = r#"fn main() { let x = sqlx::query!("SELECT 1"); }"#;
    let result = extract_sql_list(
        source,
        Some(vec![String::from(
            r#"{"functionName":"query","sqlArgNo":"0","isMacro":true}"#,
        )]),
    );
    assert_eq!(result.len(), 0);
}

#[test]
fn empty_config_list_yields_nothing() {
    let source = r#"fn main() { let x = sqlx::query!("SELECT 1"); }"#;
    let result = extract_sql_list(source, Some(Vec::new()));
    assert_eq!(result.len(), 0);
}

#[test]
fn record_encoding_escapes_content() {
    let lit = ExtractedLiteral {
        code_range: SourceRange {
            start: SourcePosition { line: 1, character: 2 },
            end: SourcePosition { line: 3, character: 4 },
        },
        content: String::from("a\u{1}b\tc\"d\\e\nf"),
        method_line: 5,
    };
    let expected = r#"{"code_range":{"start":{"line":1,"character":2},"end":{"line":3,"character":4}},"content":"a\u0001b\tc\"d\\e\nf","method_line":5}"#;
    assert_eq!(literal_to_json(&lit), expected);
}

#[test]
fn record_encoding_of_large_positions() {
    let lit = ExtractedLiteral {
        code_range: SourceRange {
            start: SourcePosition { line: 0, character: 10 },
            end: SourcePosition { line: 987654321, character: 100 },
        },
        content: String::new(),
        method_line: 0,
    };
    let expected = r#"{"code_range":{"start":{"line":0,"character":10},"end":{"line":987654321,"character":100}},"content":"","method_line":0}"#;
    assert_eq!(literal_to_json(&lit), expected);
}

#[test]
fn getdbconn_names_the_demonstration_endpoint() {
    assert_eq!(getdbconn(), "Database-URL");
}
