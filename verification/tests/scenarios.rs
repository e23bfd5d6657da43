//! Concrete call-site scenarios over the typed extraction API.

use sql_extraction::extract::{extract, extract_with_default_rules};
use sql_extraction::rules::{CallSiteKind, ExtractionRule};

fn plain_rule(name: &str, index: usize) -> ExtractionRule {
    ExtractionRule {
        callee_name: String::from(name),
        argument_index: index,
        kind: CallSiteKind::PlainCall,
    }
}

fn meta_rule(name: &str, index: usize) -> ExtractionRule {
    ExtractionRule {
        callee_name: String::from(name),
        argument_index: index,
        kind: CallSiteKind::MetaprogrammingInvocation,
    }
}

#[test]
fn plain_single_line_sole_argument() {
    let rules = vec![plain_rule("foo", 0)];
    let result = extract(r#"fn main() { foo("SELECT 1"); }"#, &rules);
    assert_eq!(result.len(), 1);
    assert_eq!(result[0].content, "SELECT 1");
    assert_eq!(result[0].code_range.start.line, 0);
    assert_eq!(result[0].code_range.start.character, 17);
    assert_eq!(result[0].code_range.end.line, 0);
    assert_eq!(result[0].code_range.end.character, 25);
    assert_eq!(result[0].method_line, 0);
}

#[test]
fn raw_multi_line_with_typed_first_argument() {
    let rules = vec![meta_rule("query_as", 1)];
    let source = r##"fn f() {
    let x = sqlx::query_as!(
        Todo,
        r#"
SELECT 1
        "#, 1
    );
}
"##;
    let result = extract(source, &rules);
    assert_eq!(result.len(), 1);
    assert!(result[0].content.starts_with('\n'));
    assert_eq!(result[0].content, "\nSELECT 1\n        ");
    // The start column advances by exactly the three characters of the
    // opening delimiter and stays on the delimiter-bearing line.
    assert_eq!(result[0].code_range.start.line, 3);
    assert_eq!(result[0].code_range.start.character, 11);
    assert_eq!(result[0].code_range.end.line, 5);
    assert_eq!(result[0].code_range.end.character, 8);
    assert_eq!(result[0].method_line, 1);
}

#[test]
fn nested_call_site_inside_non_literal_argument() {
    let rules = vec![plain_rule("foo", 0)];
    let result = extract(r#"fn main() { foo(bar(foo("SELECT 1"))); }"#, &rules);
    assert_eq!(result.len(), 1);
    assert_eq!(result[0].content, "SELECT 1");
    assert_eq!(result[0].code_range.start.character, 25);
    assert_eq!(result[0].code_range.end.character, 33);
}

#[test]
fn argument_index_past_argument_list() {
    let rules = vec![plain_rule("foo", 5), plain_rule("bar", 0)];
    let result = extract(r#"fn main() { foo("a"); }"#, &rules);
    assert_eq!(result.len(), 0);
}

#[test]
fn document_order_of_two_call_sites() {
    let rules = vec![plain_rule("foo", 0)];
    let result = extract(r#"fn main() { foo("A"); foo("B"); }"#, &rules);
    assert_eq!(result.len(), 2);
    assert_eq!(result[0].content, "A");
    assert_eq!(result[1].content, "B");
}

#[test]
fn raw_literal_without_marker_characters() {
    let rules = vec![plain_rule("foo", 0)];
    let result = extract(r#"fn main() { foo(r"SELECT 2"); }"#, &rules);
    assert_eq!(result.len(), 1);
    assert_eq!(result[0].content, "SELECT 2");
    assert_eq!(result[0].code_range.start.character, 18);
    assert_eq!(result[0].code_range.end.character, 26);
}

#[test]
fn non_string_slot_yields_nothing() {
    let result = extract_with_default_rules("fn main() { let x = sqlx::query!(42, y); }");
    assert_eq!(result.len(), 0);
}

#[test]
fn missing_slot_yields_nothing() {
    let result = extract_with_default_rules("fn main() { sqlx::query!(); }");
    assert_eq!(result.len(), 0);
}

#[test]
fn empty_source_yields_nothing() {
    let result = extract_with_default_rules("");
    assert_eq!(result.len(), 0);
}

#[test]
fn method_call_is_no_plain_call_site() {
    let rules = vec![plain_rule("query", 0)];
    let result = extract(r#"fn main() { x.query("SELECT 3"); }"#, &rules);
    assert_eq!(result.len(), 0);
}

#[test]
fn function_declaration_is_no_call_site() {
    let rules = vec![plain_rule("query", 0)];
    let result = extract(r#"fn query() {}"#, &rules);
    assert_eq!(result.len(), 0);
}

#[test]
fn typed_extraction_matches_default_rules() {
    let source = r#"
async fn add_todo(pool: &PgPool, description: String) -> anyhow::Result<i64> {
    let rec = sqlx::query!("INSERT INTO todos ( description ) VALUES ( $1 ) RETURNING id",
        description
    )
    .fetch_one(pool)
    .await?;

    Ok(rec.id)
}
        "#;
    let result = extract_with_default_rules(source);
    assert_eq!(result.len(), 1);
    assert_eq!(
        result[0].content,
        "INSERT INTO todos ( description ) VALUES ( $1 ) RETURNING id"
    );
    assert_eq!(result[0].code_range.start.line, 2);
    assert_eq!(result[0].code_range.start.character, 28);
    assert_eq!(result[0].code_range.end.line, 2);
    assert_eq!(result[0].code_range.end.character, 88);
    assert_eq!(result[0].method_line, 2);
}

#[test]
fn first_matching_rule_wins() {
    let rules = vec![plain_rule("foo", 0), plain_rule("foo", 1)];
    let result = extract(r#"fn main() { foo("a", "b"); }"#, &rules);
    assert_eq!(result.len(), 1);
    assert_eq!(result[0].content, "a");
}

#[test]
fn rules_filter_by_call_site_kind() {
    let rules = vec![meta_rule("foo", 0), plain_rule("foo", 1)];
    let result = extract(r#"fn main() { foo("a", "b"); }"#, &rules);
    assert_eq!(result.len(), 1);
    assert_eq!(result[0].content, "b");
}

#[test]
fn raw_literal_with_two_marker_characters() {
    let rules = vec![plain_rule("foo", 0)];
    let result = extract(r###"fn main() { foo(r##"a"#b"##); }"###, &rules);
    assert_eq!(result.len(), 1);
    assert_eq!(result[0].content, "a\"#b");
    assert_eq!(result[0].code_range.start.character, 20);
    assert_eq!(result[0].code_range.end.character, 24);
}

#[test]
fn parent_record_precedes_nested_records() {
    let rules = vec![plain_rule("foo", 0)];
    let result = extract(r#"fn main() { foo("A", foo("B")); }"#, &rules);
    assert_eq!(result.len(), 2);
    assert_eq!(result[0].content, "A");
    assert_eq!(result[1].content, "B");
}

#[test]
fn delimiter_round_trip_against_the_source() {
    let rules = vec![plain_rule("foo", 0)];

    // Plain style: one quote on each side of the reported range.
    let src = r#"fn main() { foo("SELECT 1"); }"#;
    let result = extract(src, &rules);
    assert_eq!(result.len(), 1);
    let start = result[0].code_range.start.character;
    let end = result[0].code_range.end.character;
    let raw = &src[start - 1..end + 1];
    assert_eq!(raw, format!("\"{}\"", result[0].content));

    // Raw style: the marker letter, two markers and a quote on the opening
    // side, the mirrored sequence on the closing side.
    let src = r###"fn main() { foo(r##"a"#b"##); }"###;
    let result = extract(src, &rules);
    assert_eq!(result.len(), 1);
    let start = result[0].code_range.start.character;
    let end = result[0].code_range.end.character;
    let raw = &src[start - 4..end + 3];
    assert_eq!(raw, format!("r##\"{}\"##", result[0].content));
}

#[test]
fn extraction_is_idempotent_on_identical_input() {
    let source = r#"fn main() { foo("SELECT 1"); foo("SELECT 2"); }"#;
    let rules = vec![plain_rule("foo", 0)];
    let first: Vec<String> = extract(source, &rules).iter().map(|l| l.content.clone()).collect();
    let second: Vec<String> = extract(source, &rules).iter().map(|l| l.content.clone()).collect();
    assert_eq!(first, second);
    assert_eq!(first, vec!["SELECT 1", "SELECT 2"]);
}
