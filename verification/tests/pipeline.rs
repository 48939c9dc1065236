//! End-to-end scenarios: source text in, SQL statements or structured
//! errors out.

use rayql::error::ParseError;
use rayql::error::ToSQLError;
use rayql::error::TokenizationError;
use rayql::parser::parse;
use rayql::schema::Schema;

fn must_parse(src: &str) -> Schema {
    match parse(src) {
        Ok(s) => s,
        Err(e) => panic!("parse failed: {}", e.message()),
    }
}

fn parse_err(src: &str) -> ParseError {
    match parse(src) {
        Ok(_) => panic!("unexpectedly parsed"),
        Err(e) => e,
    }
}

#[test]
fn user_model_statement() {
    let src = "model user {\n    id: int primary_key auto_increment,\n    name: str unique\n}";
    let schema = must_parse(src);
    let sql = schema.to_sql().unwrap();
    assert_eq!(sql.len(), 1);
    assert_eq!(
        sql[0],
        "CREATE TABLE IF NOT EXISTS user (\n    id INTEGER NOT NULL PRIMARY KEY AUTOINCREMENT,\n    name TEXT NOT NULL UNIQUE\n);"
    );
}

#[test]
fn enum_default_column_clause() {
    let src = "enum color {\n    red\n    green\n}\n\nmodel item {\n    c: color default(color.red)\n}";
    let schema = must_parse(src);
    let sql = schema.to_sql().unwrap();
    assert_eq!(sql.len(), 1);
    assert!(
        sql[0].contains("c TEXT NOT NULL CHECK(c IN ('red', 'green')) DEFAULT 'red'"),
        "unexpected statement: {}",
        sql[0]
    );
}

#[test]
fn min_check_clause() {
    let src = "model p { age: int min(0) }";
    let schema = must_parse(src);
    let sql = schema.to_sql().unwrap();
    assert!(
        sql[0].contains("age INTEGER NOT NULL CHECK(age >= 0)"),
        "unexpected statement: {}",
        sql[0]
    );
}

#[test]
fn unclosed_model_is_unexpected_end() {
    let src = "model m { x: int";
    let r = parse_err(src);
    assert!(matches!(r, ParseError::UnexpectedEndOfTokens));
}

#[test]
fn foreign_key_to_missing_model() {
    let src = "model a { f: int foreign_key(b.id) }";
    let schema = must_parse(src);
    let err = schema.to_sql().unwrap_err();
    match err {
        ToSQLError::ModelNotFound { model_name, line_number, column } => {
            assert_eq!(model_name, "b");
            assert_eq!(line_number, 1);
            assert_eq!(column, 30);
        },
        other => panic!("wrong error: {:?}", other),
    }
}

#[test]
fn unterminated_string_reports_opening_quote() {
    let src = "model m { s: str default('oops) }";
    let r = parse_err(src);
    match r {
        ParseError::TokenizationError(TokenizationError::StringLiteralOpened {
            line,
            column,
        }) => {
            assert_eq!(line, 1);
            assert_eq!(column, 26);
        },
        _ => panic!("expected an open string literal error"),
    }
}

#[test]
fn compilation_is_deterministic() {
    let src = "enum color { red green }\nmodel item { c: color default(color.red), n: int min(2) }";
    let a = must_parse(src).to_sql().unwrap();
    let b = must_parse(src).to_sql().unwrap();
    assert_eq!(a, b);
}

#[test]
fn statements_follow_declaration_order() {
    let src = "model b { x: int }\nmodel a { y: int }";
    let sql = must_parse(src).to_sql().unwrap();
    assert_eq!(sql.len(), 2);
    assert!(sql[0].starts_with("CREATE TABLE IF NOT EXISTS b ("));
    assert!(sql[1].starts_with("CREATE TABLE IF NOT EXISTS a ("));
}

#[test]
fn duplicate_top_level_name_rejected() {
    let src = "model a { x: int }\nenum a { b c }";
    let r = parse_err(src);
    match r {
        ParseError::IdentifierAlreadyInUse { identifier, line_number, .. } => {
            assert_eq!(identifier, "a");
            assert_eq!(line_number, 2);
        },
        _ => panic!("expected a duplicate identifier error"),
    }
}

#[test]
fn duplicate_enum_variant_rejected() {
    let src = "enum color { red red }";
    let r = parse_err(src);
    match r {
        ParseError::EnumVariantAlreadyExists { variant, enum_name, .. } => {
            assert_eq!(variant, "red");
            assert_eq!(enum_name, "color");
        },
        _ => panic!("expected a duplicate variant error"),
    }
}

#[test]
fn duplicate_field_rejected() {
    let src = "model m { x: int, x: str }";
    let r = parse_err(src);
    match r {
        ParseError::FieldAlreadyExistsOnModel { field, model, .. } => {
            assert_eq!(field, "x");
            assert_eq!(model, "m");
        },
        _ => panic!("expected a duplicate field error"),
    }
}

#[test]
fn optional_type_renders_null() {
    let src = "model m { a: int?, b: str }";
    let sql = must_parse(src).to_sql().unwrap();
    assert!(sql[0].contains("a INTEGER NULL"), "unexpected statement: {}", sql[0]);
    assert!(sql[0].contains("b TEXT NOT NULL"), "unexpected statement: {}", sql[0]);
}

#[test]
fn foreign_key_clause_is_table_level() {
    let src = "model b { id: int primary_key }\nmodel a { fk: int foreign_key(b.id), z: int }";
    let sql = must_parse(src).to_sql().unwrap();
    assert_eq!(
        sql[1],
        "CREATE TABLE IF NOT EXISTS a (\n    fk INTEGER NOT NULL,\n    z INTEGER NOT NULL,\n    FOREIGN KEY (fk) REFERENCES b(id)\n);"
    );
}

#[test]
fn timestamp_default_now() {
    let src = "model m { created: timestamp default(now()) }";
    let sql = must_parse(src).to_sql().unwrap();
    assert!(
        sql[0].contains("created TIMESTAMP NOT NULL DEFAULT CURRENT_TIMESTAMP"),
        "unexpected statement: {}",
        sql[0]
    );
}

#[test]
fn empty_source_yields_no_statements() {
    let sql = must_parse("").to_sql().unwrap();
    assert!(sql.is_empty());
    let sql2 = must_parse("# just a comment\n").to_sql().unwrap();
    assert!(sql2.is_empty());
}

#[test]
fn enum_without_variants() {
    let src = "enum empty_set { }\nmodel m { c: empty_set }";
    let sql = must_parse(src).to_sql().unwrap();
    assert!(sql[0].contains("c TEXT NOT NULL CHECK(c IN ())"), "unexpected: {}", sql[0]);
}

#[test]
fn top_level_keyword_misuse_rejected() {
    let r = parse_err("index i { }");
    assert!(matches!(r, ParseError::UnexpectedToken { .. }));
}

#[test]
fn scientific_default_renders_positionally() {
    let sql = must_parse("model p { x: real default(2.5e2) }").to_sql().unwrap();
    assert!(sql[0].contains("DEFAULT 250"), "unexpected: {}", sql[0]);
}
