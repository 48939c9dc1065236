//! The tokenizer: classification, positions, comments, and lexical errors.

use rayql::error::TokenizationError;
use rayql::token::get_keyword;
use rayql::token::is_boolean;
use rayql::token::Keyword;
use rayql::token::Token;
use rayql::tokenizer::get_escape_char;
use rayql::tokenizer::get_token;
use rayql::tokenizer::is_comment;
use rayql::tokenizer::tokenize;
use rayql::tokenizer::tokenize_line;

fn one_token(src: &str) -> Token {
    let toks = tokenize(src).unwrap();
    assert_eq!(toks.len(), 1, "expected one token");
    toks.into_iter().next().unwrap().0
}

#[test]
fn keywords_classify() {
    assert_eq!(get_keyword("model"), Some(Keyword::Model));
    assert_eq!(get_keyword("primary_key"), Some(Keyword::PrimaryKey));
    assert_eq!(get_keyword("timestamp"), Some(Keyword::Timestamp));
    assert_eq!(get_keyword("models"), None);
    assert!(matches!(one_token("unique"), Token::Keyword(Keyword::Unique)));
}

#[test]
fn booleans_classify() {
    assert!(is_boolean("true"));
    assert!(is_boolean("false"));
    assert!(!is_boolean("True"));
    assert!(matches!(one_token("true"), Token::Boolean(true)));
    assert!(matches!(one_token("false"), Token::Boolean(false)));
}

#[test]
fn integers_classify() {
    assert!(matches!(one_token("42"), Token::Integer(42)));
    assert!(matches!(one_token("-7"), Token::Integer(-7)));
    assert!(matches!(one_token("9223372036854775807"), Token::Integer(i64::MAX)));
}

#[test]
fn reals_classify_canonically() {
    match one_token("1.5") {
        Token::Real(s) => assert_eq!(s, "1.5"),
        _ => panic!("not a real"),
    }
    match one_token("1.50") {
        Token::Real(s) => assert_eq!(s, "1.5"),
        _ => panic!("not a real"),
    }
    match one_token(".5") {
        Token::Real(s) => assert_eq!(s, "0.5"),
        _ => panic!("not a real"),
    }
    match one_token("-0.25") {
        Token::Real(s) => assert_eq!(s, "-0.25"),
        _ => panic!("not a real"),
    }
    match one_token("1e2") {
        Token::Real(s) => assert_eq!(s, "100"),
        _ => panic!("not a real"),
    }
    match one_token("2.5e-2") {
        Token::Real(s) => assert_eq!(s, "0.025"),
        _ => panic!("not a real"),
    }
}

#[test]
fn integer_overflow_becomes_real() {
    match one_token("9223372036854775808") {
        Token::Real(s) => assert_eq!(s, "9223372036854775808"),
        _ => panic!("expected a real"),
    }
}

#[test]
fn references_classify() {
    match one_token("user.id") {
        Token::Reference(e, p) => {
            assert_eq!(e, "user");
            assert_eq!(p, "id");
        },
        _ => panic!("not a reference"),
    }
}

#[test]
fn identifiers_classify() {
    match one_token("user_name2") {
        Token::Identifier(s) => assert_eq!(s, "user_name2"),
        _ => panic!("not an identifier"),
    }
}

#[test]
fn digit_identifier_rejected() {
    let r = get_token("1abc", 3, 9);
    match r {
        Err(TokenizationError::IdentifierBeginsWithDigit { identifier, line, column }) => {
            assert_eq!(identifier, "1abc");
            assert_eq!(line, 3);
            assert_eq!(column, 9);
        },
        _ => panic!("expected a digit identifier error"),
    }
}

#[test]
fn token_positions_recorded() {
    let toks = tokenize("model user {").unwrap();
    assert_eq!(toks.len(), 3);
    assert_eq!((toks[0].1, toks[0].2), (1, 1));
    assert_eq!((toks[1].1, toks[1].2), (1, 7));
    assert!(matches!(toks[2].0, Token::BraceOpen));
    assert_eq!((toks[2].1, toks[2].2), (1, 12));
}

#[test]
fn second_line_positions() {
    let toks = tokenize("model m {\n}").unwrap();
    let last = toks.last().unwrap();
    assert!(matches!(last.0, Token::BraceClose));
    assert_eq!((last.1, last.2), (2, 1));
}

#[test]
fn comment_lines_skipped() {
    assert!(is_comment("# a comment"));
    assert!(is_comment("   # indented"));
    assert!(!is_comment("model # trailing"));
    let toks = tokenize("# heading\nmodel m {\n}").unwrap();
    assert!(matches!(toks[0].0, Token::Keyword(Keyword::Model)));
    assert_eq!(toks[0].1, 2);
}

#[test]
fn trailing_comment_cuts_line() {
    let toks = tokenize("model # the rest is ignored").unwrap();
    assert_eq!(toks.len(), 1);
    assert!(matches!(toks[0].0, Token::Keyword(Keyword::Model)));
}

#[test]
fn string_literal_with_escapes() {
    let toks = tokenize_line("'a\\n\\'b'", 1).unwrap();
    assert_eq!(toks.len(), 1);
    match &toks[0].0 {
        Token::StringLiteral(s) => assert_eq!(s, "a\n'b"),
        _ => panic!("not a string literal"),
    }
}

#[test]
fn unknown_escape_rejected() {
    let r = tokenize_line("'a\\q'", 1);
    match r {
        Err(TokenizationError::UnknownEscapeSequence { character, line, column }) => {
            assert_eq!(character, 'q');
            assert_eq!(line, 1);
            assert_eq!(column, 4);
        },
        _ => panic!("expected an escape error"),
    }
}

#[test]
fn optional_suffix_wraps_token() {
    let toks = tokenize("int?").unwrap();
    match &toks[0].0 {
        Token::Optional(inner) => assert!(matches!(**inner, Token::Keyword(Keyword::Integer))),
        _ => panic!("expected an optional token"),
    }
}

#[test]
fn stray_question_mark_rejected() {
    let r = tokenize("?");
    assert!(matches!(
        r,
        Err(TokenizationError::UnexpectedCharacter { character: '?', line: 1, column: 1 })
    ));
}

#[test]
fn lone_dash_rejected() {
    let r = tokenize("-x");
    assert!(matches!(
        r,
        Err(TokenizationError::UnexpectedCharacter { character: '-', line: 1, column: 1 })
    ));
}

#[test]
fn dash_at_end_of_input() {
    let r = tokenize("-");
    assert!(matches!(r, Err(TokenizationError::UnexpectedEndOfInput)));
}

#[test]
fn dot_before_space_rejected() {
    let r = tokenize("a. b");
    assert!(matches!(
        r,
        Err(TokenizationError::UnexpectedCharacter { character: '.', line: 1, column: 2 })
    ));
}

#[test]
fn escape_characters_map() {
    assert_eq!(get_escape_char(&'n'), Some('\n'));
    assert_eq!(get_escape_char(&'r'), Some('\r'));
    assert_eq!(get_escape_char(&'t'), Some('\t'));
    assert_eq!(get_escape_char(&'\\'), Some('\\'));
    assert_eq!(get_escape_char(&'\''), Some('\''));
    assert_eq!(get_escape_char(&'"'), Some('"'));
    assert_eq!(get_escape_char(&'q'), None);
}

#[test]
fn crlf_lines_handled() {
    let toks = tokenize("model\r\nenum").unwrap();
    assert_eq!(toks.len(), 2);
    assert!(matches!(toks[0].0, Token::Keyword(Keyword::Model)));
    assert!(matches!(toks[1].0, Token::Keyword(Keyword::Enum)));
    assert_eq!(toks[1].1, 2);
}

#[test]
fn token_display_text() {
    let t = Token::Identifier(String::from("abc"));
    assert_eq!(t.describe(), "Identifier: abc");
    let k = Token::Keyword(Keyword::PrimaryKey);
    assert_eq!(k.describe(), "Keyword: PrimaryKey");
    let o = Token::Optional(Box::new(Token::Keyword(Keyword::Integer)));
    assert_eq!(o.describe(), "Optional Keyword: Integer");
}
