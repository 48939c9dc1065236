//! The generator: built-in translation, arity, type rules, value
//! rendering, and diagnostics.

use rayql::error::FunctionError;
use rayql::error::ToSQLError;
use rayql::parser::parse;
use rayql::value::Value;

fn sql_of(src: &str) -> Vec<String> {
    match parse(src) {
        Ok(s) => s.to_sql().unwrap(),
        Err(e) => panic!("parse failed: {}", e.message()),
    }
}

fn err_of(src: &str) -> ToSQLError {
    match parse(src) {
        Ok(s) => s.to_sql().unwrap_err(),
        Err(e) => panic!("parse failed: {}", e.message()),
    }
}

#[test]
fn max_check_uses_at_most() {
    let sql = sql_of("model p { age: int max(120) }");
    assert!(sql[0].contains("CHECK(age <= 120)"), "unexpected: {}", sql[0]);
}

#[test]
fn string_bounds_use_length() {
    let sql = sql_of("model p { name: str min(2), bio: str max(80) }");
    assert!(sql[0].contains("CHECK(LENGTH(name) >= 2)"), "unexpected: {}", sql[0]);
    assert!(sql[0].contains("CHECK(LENGTH(bio) <= 80)"), "unexpected: {}", sql[0]);
}

#[test]
fn bound_on_boolean_field_rejected() {
    let err = err_of("model p { ok: bool min(1) }");
    match err {
        ToSQLError::FunctionError { source: FunctionError::InvalidArgument(msg), .. } => {
            assert_eq!(msg, "min value must be a value");
        },
        other => panic!("wrong error: {:?}", other),
    }
}

#[test]
fn zero_argument_builtin_missing() {
    let err = err_of("model p { age: int min() }");
    assert!(matches!(
        err,
        ToSQLError::FunctionError { source: FunctionError::MissingArgument, .. }
    ));
}

#[test]
fn two_argument_builtin_rejected() {
    let err = err_of("model p { age: int min(1, 2) }");
    match err {
        ToSQLError::FunctionError {
            source: FunctionError::ExpectsExactlyOneArgument(name),
            ..
        } => assert_eq!(name, "min"),
        other => panic!("wrong error: {:?}", other),
    }
}

#[test]
fn unknown_function_rejected() {
    let err = err_of("model p { age: int clamp(1) }");
    match err {
        ToSQLError::FunctionError { source: FunctionError::UndefinedFunction(name), .. } => {
            assert_eq!(name, "clamp");
        },
        other => panic!("wrong error: {:?}", other),
    }
}

#[test]
fn default_type_mismatch_rejected() {
    let err = err_of("model p { age: int default('old') }");
    assert!(matches!(
        err,
        ToSQLError::FunctionError { source: FunctionError::InvalidArgument(_), .. }
    ));
}

#[test]
fn default_literals_render() {
    let sql = sql_of(
        "model p { a: int default(3), b: real default(1.50), c: bool default(true), d: bool default(false), e: str default('hi') }",
    );
    assert!(sql[0].contains("a INTEGER NOT NULL DEFAULT 3"), "unexpected: {}", sql[0]);
    assert!(sql[0].contains("b REAL NOT NULL DEFAULT 1.5"), "unexpected: {}", sql[0]);
    assert!(sql[0].contains("c BOOLEAN NOT NULL DEFAULT 1"), "unexpected: {}", sql[0]);
    assert!(sql[0].contains("d BOOLEAN NOT NULL DEFAULT 0"), "unexpected: {}", sql[0]);
    assert!(sql[0].contains("e TEXT NOT NULL DEFAULT 'hi'"), "unexpected: {}", sql[0]);
}

#[test]
fn real_zero_renders_with_point() {
    let sql = sql_of("model p { x: real default(0.0), y: real default(-0.0) }");
    assert!(sql[0].contains("x REAL NOT NULL DEFAULT 0.0"), "unexpected: {}", sql[0]);
    assert!(sql[0].contains("y REAL NOT NULL DEFAULT 0.0"), "unexpected: {}", sql[0]);
}

#[test]
fn negative_integer_default() {
    let sql = sql_of("model p { x: int default(-5) }");
    assert!(sql[0].contains("DEFAULT -5"), "unexpected: {}", sql[0]);
}

#[test]
fn references_clause_inline() {
    let sql = sql_of("model b { id: int }\nmodel a { fk: int references(b.id) }");
    assert!(sql[1].contains("fk INTEGER NOT NULL REFERENCES b(id)"), "unexpected: {}", sql[1]);
}

#[test]
fn reference_to_missing_field() {
    let err = err_of("model b { id: int }\nmodel a { fk: int references(b.nope) }");
    match err {
        ToSQLError::FieldNotFound { model_name, field_name, .. } => {
            assert_eq!(model_name, "b");
            assert_eq!(field_name, "nope");
        },
        other => panic!("wrong error: {:?}", other),
    }
}

#[test]
fn enum_typed_field_needs_enum() {
    let err = err_of("model p { c: color }");
    match err {
        ToSQLError::EnumNotFound { enum_name, .. } => assert_eq!(enum_name, "color"),
        other => panic!("wrong error: {:?}", other),
    }
}

#[test]
fn default_variant_must_exist() {
    let err = err_of("enum color { red }\nmodel p { c: color default(color.blue) }");
    match err {
        ToSQLError::VariantNotFound { enum_name, variant, .. } => {
            assert_eq!(enum_name, "color");
            assert_eq!(variant, "blue");
        },
        other => panic!("wrong error: {:?}", other),
    }
}

#[test]
fn default_variant_from_other_enum_rejected() {
    let err = err_of(
        "enum color { red }\nenum mood { glad }\nmodel p { c: color default(mood.glad) }",
    );
    match err {
        ToSQLError::ConversionError { reason, .. } => {
            assert_eq!(reason, "expected a variant of enum color, got mood");
        },
        other => panic!("wrong error: {:?}", other),
    }
}

#[test]
fn value_rendering_direct() {
    assert_eq!(Value::StringLiteral(String::from("hi")).to_sql(), "'hi'");
    assert_eq!(Value::Integer(-12).to_sql(), "-12");
    assert_eq!(Value::Integer(i64::MIN).to_sql(), "-9223372036854775808");
    assert_eq!(Value::Real(String::from("0")).to_sql(), "0.0");
    assert_eq!(Value::Real(String::from("2.75")).to_sql(), "2.75");
    assert_eq!(Value::Boolean(true).to_sql(), "1");
    assert_eq!(Value::Boolean(false).to_sql(), "0");
}

#[test]
fn blob_and_boolean_types_render() {
    let sql = sql_of("model p { data: blob, flag: bool? }");
    assert!(sql[0].contains("data BLOB NOT NULL"), "unexpected: {}", sql[0]);
    assert!(sql[0].contains("flag BOOLEAN NULL"), "unexpected: {}", sql[0]);
}

#[test]
fn nested_call_as_bound() {
    let sql = sql_of("model p { created: timestamp min(now()) }");
    assert!(
        sql[0].contains("CHECK(created >= CURRENT_TIMESTAMP)"),
        "unexpected: {}",
        sql[0]
    );
}
