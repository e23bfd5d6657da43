//! The wire-level extraction entry point, driven over sample source files.

use sql_extraction::extract::extract_sql_list;

#[test]
fn found_sqlx_query_one_query_single_line() {
    let result = extract_sql_list(
        r#"
async fn add_todo(pool: &PgPool, description: String) -> anyhow::Result<i64> {
    let rec = sqlx::query!("INSERT INTO todos ( description ) VALUES ( $1 ) RETURNING id",
        description
    )
    .fetch_one(pool)
    .await?;

    Ok(rec.id)
}
        "#,
        None,
    );
    let expected = r#"{"code_range":{"start":{"line":2,"character":28},"end":{"line":2,"character":88}},"content":"INSERT INTO todos ( description ) VALUES ( $1 ) RETURNING id","method_line":2}"#;

    assert_eq!(result.len(), 1);
    assert_eq!(result[0], expected);
}

#[test]
fn found_sqlx_query_as_one_query_multi_line() {
    let result = extract_sql_list(
        r##"
async fn list_todos(pool: &PgPool) -> anyhow::Result<()> {
    let recs = sqlx::query_as!(
        Todo,
        r#"
SELECT id, description, done
FROM todos
WHERE id = ?
ORDER BY id
        "#, 1
    )
    .fetch_all(pool)
    .await?;

    for rec in recs {
        println!(
            "- [{}] {}: {}",
            if rec.done { "x" } else { " " },
            rec.id,
            &rec.description,
        );
    }
}
            "##,
        None,
    );
    assert_eq!(result.len(), 1);
    let expected = r#"{"code_range":{"start":{"line":4,"character":11},"end":{"line":9,"character":8}},"content":"\nSELECT id, description, done\nFROM todos\nWHERE id = ?\nORDER BY id\n        ","method_line":2}"#;
    assert_eq!(result[0], expected);
}

#[test]
fn found_sqlx_query_and_query_as_with_custom_config() {
    let result = extract_sql_list(
        r##"
async fn list_todos(pool: &PgPool) -> anyhow::Result<()> {
    let rec = sqlx::query!("INSERT INTO todos ( description ) VALUES ( $1 ) RETURNING id",
        description
    )
    .fetch_one(pool)
    .await?;

    let recs = sqlx::query_as!(
        Todo,
        r#"
SELECT id, description, done
FROM todos
WHERE id = ?
ORDER BY id
        "#, 1
    )
    .fetch_all(pool)
    .await?;

    for rec in recs {
        println!(
            "- [{}] {}: {}",
            if rec.done { "x" } else { " " },
            rec.id,
            &rec.description,
        );
    }
}
    "##,
        Some(vec![
            String::from(r#"{"functionName":"query","sqlArgNo":0,"isMacro":true}"#),
            String::from(r#"{"functionName":"query_as","sqlArgNo":1,"isMacro":true}"#),
        ]),
    );
    assert_eq!(result.len(), 2);
    let expected1 = r#"{"code_range":{"start":{"line":2,"character":28},"end":{"line":2,"character":88}},"content":"INSERT INTO todos ( description ) VALUES ( $1 ) RETURNING id","method_line":2}"#;
    let expected2 = r#"{"code_range":{"start":{"line":10,"character":11},"end":{"line":15,"character":8}},"content":"\nSELECT id, description, done\nFROM todos\nWHERE id = ?\nORDER BY id\n        ","method_line":8}"#;
    assert_eq!(result[0], expected1);
    assert_eq!(result[1], expected2);
}

#[test]
fn found_sqlx_query_multi_queries_with_single_line() {
    let result = extract_sql_list(
        r#"
async fn add_todo(pool: &PgPool, description: String) -> anyhow::Result<i64> {
    let rec = sqlx::query!("SELECT id \"id\", description, done FROM todos ORDER BY id")
        .fetch_one(pool)
        .await?;

    // write test insert query
    let rec = sqlx::query!("INSERT INTO todos ( description ) VALUES ( $1 ) RETURNING id", description)
        .fetch_one(pool)
        .await?;

    Ok(rec.id)
}
            "#,
        None,
    );
    let expected1 = r#"{"code_range":{"start":{"line":2,"character":28},"end":{"line":2,"character":86}},"content":"SELECT id \\\"id\\\", description, done FROM todos ORDER BY id","method_line":2}"#;
    let expected2 = r#"{"code_range":{"start":{"line":7,"character":28},"end":{"line":7,"character":88}},"content":"INSERT INTO todos ( description ) VALUES ( $1 ) RETURNING id","method_line":7}"#;

    assert_eq!(result.len(), 2);
    assert_eq!(result[0], expected1);
    assert_eq!(result[1], expected2);
}

#[test]
fn found_sqlx_query_one_queries_with_multi_line() {
    let result = extract_sql_list(
        r##"
async fn complete_todo(pool: &PgPool, id: i64) -> anyhow::Result<bool> {
    let rows_affected = sqlx::query!(
        r#"
UPDATE todos
SET done = TRUE
WHERE id = $1
        "#,
        id
    )
    .execute(pool)
    .await?
    .rows_affected();

    Ok(rows_affected > 0)
}
            "##,
        None,
    );
    assert_eq!(result.len(), 1);

    let expected = r#"{"code_range":{"start":{"line":3,"character":11},"end":{"line":7,"character":8}},"content":"\nUPDATE todos\nSET done = TRUE\nWHERE id = $1\n        ","method_line":2}"#;
    assert_eq!(result[0], expected);
}

#[test]
fn found_sqlx_query_multi_queries_with_multi_line() {
    let result = extract_sql_list(
        r##"
async fn add_todo(pool: &PgPool, description: String) -> anyhow::Result<i64> {
    let rec = sqlx::query!(r#"
INSERT INTO "todos" ( description )
VALUES ( $1 )
RETURNING id
        "#,
            description
        )
        .fetch_one(pool)
        .await?;

    // write test insert query
    let rec = sqlx::query!(r#"
            UPDATE todos
            SET done = TRUE
            WHERE id = $1
            "#,
            description
        )
        .fetch_one(pool)
        .await?;

    Ok(rec.id)
}
            "##,
        None,
    );
    assert_eq!(result.len(), 2);
    let expected1 = r#"{"code_range":{"start":{"line":2,"character":30},"end":{"line":6,"character":8}},"content":"\nINSERT INTO \"todos\" ( description )\nVALUES ( $1 )\nRETURNING id\n        ","method_line":2}"#;
    assert_eq!(result[0], expected1);

    let expected2 = r#"{"code_range":{"start":{"line":13,"character":30},"end":{"line":17,"character":12}},"content":"\n            UPDATE todos\n            SET done = TRUE\n            WHERE id = $1\n            ","method_line":13}"#;
    assert_eq!(result[1], expected2);
}

#[test]
fn not_found_sqlx_query_with_parsing_failure() {
    let result = extract_sql_list(
        // missing closing parenthesis
        r##"
async fn add_todo(pool: &PgPool, description: String) -> anyhow::Result<i64> {
    let rec = sqlx::query!("INSERT INTO todos ( description ) VALUES ( $1 ) RETURNING id",
        description
    )
    .fetch_one(pool)
    .await?;

    Ok(rec.id)
        "##,
        None,
    );

    assert_eq!(result.len(), 0);
}

#[test]
fn found_diesel_sql_query_one_query_multi_line() {
    let result = extract_sql_list(
        r##"
fn main() {
    let conn = getdbconn();

    let results = diesel::sql_query(
        r#"
SELECT id, description, done
FROM todos
ORDER BY id
        "#,
    )
    .load::<model::User>(&conn)
    .unwrap();
    println!("{:?}", results);
}
        "##,
        Some(
            [String::from(
                r#"{"functionName":"sql_query","sqlArgNo":0,"isMacro":false}"#,
            )]
            .to_vec(),
        ),
    );
    let expected = r#"{"code_range":{"start":{"line":5,"character":11},"end":{"line":9,"character":8}},"content":"\nSELECT id, description, done\nFROM todos\nORDER BY id\n        ","method_line":4}"#;

    assert_eq!(result.len(), 1);
    assert_eq!(result[0], expected);
}
