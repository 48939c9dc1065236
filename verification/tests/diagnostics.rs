//! Rendering of errors as one-line diagnostics.

use rayql::error::pretty_error_message;
use rayql::error::pretty_to_sql_error_message;
use rayql::error::FunctionError;
use rayql::error::ToSQLError;
use rayql::error::ParseError;
use rayql::parser::parse;

fn parse_err(src: &str) -> ParseError {
    match parse(src) {
        Ok(_) => panic!("unexpectedly parsed"),
        Err(e) => e,
    }
}

#[test]
fn tokenization_diagnostic() {
    let src = "model m { x: int ? }";
    let err = parse_err(src);
    let msg = pretty_error_message(&err, src);
    assert_eq!(msg, "Unexpected character '?' at line 1, column 18");
}

#[test]
fn unexpected_token_diagnostic() {
    let src = "model m { x: int } }";
    let err = parse_err(src);
    let msg = pretty_error_message(&err, src);
    assert_eq!(msg, "Unexpected token } at line 1, column 20");
}

#[test]
fn redefinition_diagnostic() {
    let src = "model a { x: int }\nmodel a { y: int }";
    let err = parse_err(src);
    let msg = pretty_error_message(&err, src);
    assert_eq!(msg, "Cannot re-define 'a' at line 2, column 7");
}

#[test]
fn model_not_found_diagnostic() {
    let src = "model a { f: int foreign_key(b.id) }";
    let err = match parse(src) {
        Ok(s) => s.to_sql().unwrap_err(),
        Err(_) => panic!("parse failed"),
    };
    let msg = pretty_to_sql_error_message(err, src);
    assert_eq!(msg, "Model not found: b at line 1, column 30");
}

#[test]
fn function_error_diagnostic() {
    let err = ToSQLError::FunctionError {
        source: FunctionError::UndefinedFunction(String::from("clamp")),
        line_number: 4,
        column: 11,
    };
    assert_eq!(err.message(), "Undefined function 'clamp' called at line 4, column 11");
    let err2 = ToSQLError::FunctionError {
        source: FunctionError::ExpectsExactlyOneArgument(String::from("min")),
        line_number: 2,
        column: 3,
    };
    assert_eq!(err2.message(), "min takes exactly one argument, error at line 2, column 3");
}

#[test]
fn field_not_found_diagnostic() {
    let err = ToSQLError::FieldNotFound {
        model_name: String::from("b"),
        field_name: String::from("nope"),
        line_number: 2,
        column: 35,
    };
    assert_eq!(
        err.message(),
        "Field 'nope' does not exist on model 'b': line 2, column 35"
    );
}
