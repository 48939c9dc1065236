//! Tokens of the schema language and their mathematical view.

use vstd::prelude::*;
use crate::text::str_eq;
use crate::text::chars_eq_str;

verus! {

#[derive(Debug, PartialEq, Clone, Copy)]
pub enum Keyword {
    Model,
    Enum,
    Index,
    String,
    Integer,
    Real,
    Blob,
    Boolean,
    Timestamp,
    PrimaryKey,
    AutoIncrement,
    Unique,
}

/// One lexical token. A real literal carries its canonical decimal
/// rendering, fixed once at classification time.
pub enum Token {
    Identifier(String),
    Reference(String, String),
    StringLiteral(String),
    Integer(i64),
    Real(String),
    Boolean(bool),
    Keyword(Keyword),
    ParenOpen,
    ParenClose,
    BraceOpen,
    BraceClose,
    Colon,
    Comma,
    Optional(Box<Token>),
}

/// The view of a token: the same shape over mathematical values.
pub enum TokenV {
    Identifier(Seq<char>),
    Reference(Seq<char>, Seq<char>),
    StringLiteral(Seq<char>),
    Integer(int),
    Real(Seq<char>),
    Boolean(bool),
    Keyword(Keyword),
    ParenOpen,
    ParenClose,
    BraceOpen,
    BraceClose,
    Colon,
    Comma,
    Optional(Box<TokenV>),
}

pub open spec fn token_view(t: Token) -> TokenV
    decreases t,
{
    match t {
        Token::Identifier(s) => TokenV::Identifier(s@),
        Token::Reference(e, p) => TokenV::Reference(e@, p@),
        Token::StringLiteral(s) => TokenV::StringLiteral(s@),
        Token::Integer(i) => TokenV::Integer(i as int),
        Token::Real(s) => TokenV::Real(s@),
        Token::Boolean(b) => TokenV::Boolean(b),
        Token::Keyword(k) => TokenV::Keyword(k),
        Token::ParenOpen => TokenV::ParenOpen,
        Token::ParenClose => TokenV::ParenClose,
        Token::BraceOpen => TokenV::BraceOpen,
        Token::BraceClose => TokenV::BraceClose,
        Token::Colon => TokenV::Colon,
        Token::Comma => TokenV::Comma,
        Token::Optional(inner) => TokenV::Optional(Box::new(token_view(*inner))),
    }
}

impl View for Token {
    type V = TokenV;

    open spec fn view(&self) -> TokenV {
        token_view(*self)
    }
}

impl Clone for Token {
    fn clone(&self) -> (r: Token)
        ensures
            r@ == self@,
        decreases self,
    {
        match self {
            Token::Identifier(s) => Token::Identifier(s.clone()),
            Token::Reference(e, p) => Token::Reference(e.clone(), p.clone()),
            Token::StringLiteral(s) => Token::StringLiteral(s.clone()),
            Token::Integer(i) => Token::Integer(*i),
            Token::Real(s) => Token::Real(s.clone()),
            Token::Boolean(b) => Token::Boolean(*b),
            Token::Keyword(k) => Token::Keyword(*k),
            Token::ParenOpen => Token::ParenOpen,
            Token::ParenClose => Token::ParenClose,
            Token::BraceOpen => Token::BraceOpen,
            Token::BraceClose => Token::BraceClose,
            Token::Colon => Token::Colon,
            Token::Comma => Token::Comma,
            Token::Optional(inner) => Token::Optional(Box::new((**inner).clone())),
        }
    }
}

/// A token paired with the line and column where it starts.
pub type PositionedToken = (Token, usize, usize);

/// The view of a positioned token stream.
pub open spec fn tokens_view(ts: Seq<PositionedToken>) -> Seq<(TokenV, int, int)> {
    ts.map_values(|t: PositionedToken| (t.0@, t.1 as int, t.2 as int))
}

pub open spec fn spec_keyword(s: Seq<char>) -> Option<Keyword> {
    if s == "model"@ {
        Some(Keyword::Model)
    } else if s == "enum"@ {
        Some(Keyword::Enum)
    } else if s == "index"@ {
        Some(Keyword::Index)
    } else if s == "str"@ {
        Some(Keyword::String)
    } else if s == "int"@ {
        Some(Keyword::Integer)
    } else if s == "real"@ {
        Some(Keyword::Real)
    } else if s == "bool"@ {
        Some(Keyword::Boolean)
    } else if s == "blob"@ {
        Some(Keyword::Blob)
    } else if s == "timestamp"@ {
        Some(Keyword::Timestamp)
    } else if s == "primary_key"@ {
        Some(Keyword::PrimaryKey)
    } else if s == "auto_increment"@ {
        Some(Keyword::AutoIncrement)
    } else if s == "unique"@ {
        Some(Keyword::Unique)
    } else {
        None
    }
}

/// Maps the fixed keyword spellings to their keywords.
pub fn get_keyword(token_str: &str) -> (r: Option<Keyword>)
    ensures
        r == spec_keyword(token_str@),
{
    if str_eq(token_str, "model") {
        Some(Keyword::Model)
    } else if str_eq(token_str, "enum") {
        Some(Keyword::Enum)
    } else if str_eq(token_str, "index") {
        Some(Keyword::Index)
    } else if str_eq(token_str, "str") {
        Some(Keyword::String)
    } else if str_eq(token_str, "int") {
        Some(Keyword::Integer)
    } else if str_eq(token_str, "real") {
        Some(Keyword::Real)
    } else if str_eq(token_str, "bool") {
        Some(Keyword::Boolean)
    } else if str_eq(token_str, "blob") {
        Some(Keyword::Blob)
    } else if str_eq(token_str, "timestamp") {
        Some(Keyword::Timestamp)
    } else if str_eq(token_str, "primary_key") {
        Some(Keyword::PrimaryKey)
    } else if str_eq(token_str, "auto_increment") {
        Some(Keyword::AutoIncrement)
    } else if str_eq(token_str, "unique") {
        Some(Keyword::Unique)
    } else {
        None
    }
}

pub(crate) fn get_keyword_chars(v: &Vec<char>) -> (r: Option<Keyword>)
    ensures
        r == spec_keyword(v@),
{
    if chars_eq_str(v, "model") {
        Some(Keyword::Model)
    } else if chars_eq_str(v, "enum") {
        Some(Keyword::Enum)
    } else if chars_eq_str(v, "index") {
        Some(Keyword::Index)
    } else if chars_eq_str(v, "str") {
        Some(Keyword::String)
    } else if chars_eq_str(v, "int") {
        Some(Keyword::Integer)
    } else if chars_eq_str(v, "real") {
        Some(Keyword::Real)
    } else if chars_eq_str(v, "bool") {
        Some(Keyword::Boolean)
    } else if chars_eq_str(v, "blob") {
        Some(Keyword::Blob)
    } else if chars_eq_str(v, "timestamp") {
        Some(Keyword::Timestamp)
    } else if chars_eq_str(v, "primary_key") {
        Some(Keyword::PrimaryKey)
    } else if chars_eq_str(v, "auto_increment") {
        Some(Keyword::AutoIncrement)
    } else if chars_eq_str(v, "unique") {
        Some(Keyword::Unique)
    } else {
        None
    }
}

/// Whether the word is one of the two boolean literals.
pub fn is_boolean(token: &str) -> (r: bool)
    ensures
        r == (token@ == "true"@ || token@ == "false"@),
{
    str_eq(token, "true") || str_eq(token, "false")
}

// ---------------------------------------------------------------------------
// Display text of tokens, for diagnostics.
// ---------------------------------------------------------------------------

pub open spec fn spec_keyword_name(k: Keyword) -> Seq<char> {
    match k {
        Keyword::Model => "Model"@,
        Keyword::Enum => "Enum"@,
        Keyword::Index => "Index"@,
        Keyword::String => "String"@,
        Keyword::Integer => "Integer"@,
        Keyword::Real => "Real"@,
        Keyword::Blob => "Blob"@,
        Keyword::Boolean => "Boolean"@,
        Keyword::Timestamp => "Timestamp"@,
        Keyword::PrimaryKey => "PrimaryKey"@,
        Keyword::AutoIncrement => "AutoIncrement"@,
        Keyword::Unique => "Unique"@,
    }
}

pub fn keyword_name(k: Keyword) -> (r: String)
    ensures
        r@ == spec_keyword_name(k),
{
    match k {
        Keyword::Model => String::from_str("Model"),
        Keyword::Enum => String::from_str("Enum"),
        Keyword::Index => String::from_str("Index"),
        Keyword::String => String::from_str("String"),
        Keyword::Integer => String::from_str("Integer"),
        Keyword::Real => String::from_str("Real"),
        Keyword::Blob => String::from_str("Blob"),
        Keyword::Boolean => String::from_str("Boolean"),
        Keyword::Timestamp => String::from_str("Timestamp"),
        Keyword::PrimaryKey => String::from_str("PrimaryKey"),
        Keyword::AutoIncrement => String::from_str("AutoIncrement"),
        Keyword::Unique => String::from_str("Unique"),
    }
}

/// The display text of a token, as diagnostics print it.
pub open spec fn spec_token_text(t: TokenV) -> Seq<char>
    decreases t,
{
    match t {
        TokenV::Identifier(s) => "Identifier: "@ + s,
        TokenV::Reference(e, p) => "Reference: "@ + e + "."@ + p,
        TokenV::StringLiteral(s) => "StringLiteral: "@ + s,
        TokenV::Integer(i) => "Integer: "@ + crate::text::dec_int(i),
        TokenV::Real(r) => "Real: "@ + r,
        TokenV::Boolean(b) => "Boolean: "@ + (if b {
            "true"@
        } else {
            "false"@
        }),
        TokenV::Keyword(k) => "Keyword: "@ + spec_keyword_name(k),
        TokenV::ParenOpen => "("@,
        TokenV::ParenClose => ")"@,
        TokenV::BraceOpen => "{"@,
        TokenV::BraceClose => "}"@,
        TokenV::Colon => ":"@,
        TokenV::Comma => ","@,
        TokenV::Optional(inner) => "Optional "@ + spec_token_text(*inner),
    }
}

impl Token {
    /// The display text of this token, as diagnostics print it.
    pub fn describe(&self) -> (r: String)
        ensures
            r@ == spec_token_text(self@),
        decreases self,
    {
        match self {
            Token::Identifier(s) => {
                let mut out = String::from_str("Identifier: ");
                out.append(s.as_str());
                out
            },
            Token::Reference(e, p) => {
                let mut out = String::from_str("Reference: ");
                out.append(e.as_str());
                out.append(".");
                out.append(p.as_str());
                out
            },
            Token::StringLiteral(s) => {
                let mut out = String::from_str("StringLiteral: ");
                out.append(s.as_str());
                out
            },
            Token::Integer(i) => {
                let mut out = String::from_str("Integer: ");
                let ds = crate::text::i64_to_string(*i);
                out.append(ds.as_str());
                out
            },
            Token::Real(r) => {
                let mut out = String::from_str("Real: ");
                out.append(r.as_str());
                out
            },
            Token::Boolean(b) => {
                let mut out = String::from_str("Boolean: ");
                if *b {
                    out.append("true");
                } else {
                    out.append("false");
                }
                out
            },
            Token::Keyword(k) => {
                let mut out = String::from_str("Keyword: ");
                let kn = keyword_name(*k);
                out.append(kn.as_str());
                out
            },
            Token::ParenOpen => String::from_str("("),
            Token::ParenClose => String::from_str(")"),
            Token::BraceOpen => String::from_str("{"),
            Token::BraceClose => String::from_str("}"),
            Token::Colon => String::from_str(":"),
            Token::Comma => String::from_str(","),
            Token::Optional(inner) => {
                let mut out = String::from_str("Optional ");
                let it = (**inner).describe();
                out.append(it.as_str());
                out
            },
        }
    }
}


// ---------------------------------------------------------------------------
// Display length of tokens.
// ---------------------------------------------------------------------------

/// The length of a token's printed value, in characters.
pub open spec fn spec_token_len(t: TokenV) -> int
    decreases t,
{
    match t {
        TokenV::Identifier(s) => s.len() as int,
        TokenV::Reference(e, p) => e.len() as int + p.len() as int + 1,
        TokenV::StringLiteral(s) => s.len() as int,
        TokenV::Integer(i) => crate::text::dec_int(i).len() as int,
        TokenV::Real(r) => r.len() as int,
        TokenV::Boolean(b) => if b {
            4int
        } else {
            5int
        },
        TokenV::Keyword(k) => spec_keyword_name(k).len() as int,
        TokenV::ParenOpen => 1,
        TokenV::ParenClose => 1,
        TokenV::BraceOpen => 1,
        TokenV::BraceClose => 1,
        TokenV::Colon => 1,
        TokenV::Comma => 1,
        TokenV::Optional(inner) => spec_token_len(*inner) + 9,
    }
}

/// Lengths are clamped at the machine limit.
pub open spec fn sat_len(x: int) -> int {
    if x > usize::MAX as int {
        usize::MAX as int
    } else {
        x
    }
}

impl Token {
    /// The length of this token's printed value, in characters.
    pub fn len(&self) -> (r: usize)
        ensures
            r as int == sat_len(spec_token_len(self@)),
        decreases self,
    {
        match self {
            Token::Identifier(s) => s.as_str().unicode_len(),
            Token::Reference(e, p) => {
                let wide: u128 = e.as_str().unicode_len() as u128 + p.as_str().unicode_len()
                    as u128 + 1;
                if wide > usize::MAX as u128 {
                    usize::MAX
                } else {
                    wide as usize
                }
            },
            Token::StringLiteral(s) => s.as_str().unicode_len(),
            Token::Integer(i) => {
                let ds = crate::text::i64_to_chars(*i);
                ds.len()
            },
            Token::Real(r) => r.as_str().unicode_len(),
            Token::Boolean(b) => {
                if *b {
                    4
                } else {
                    5
                }
            },
            Token::Keyword(k) => {
                let kn = keyword_name(*k);
                kn.as_str().unicode_len()
            },
            Token::ParenOpen => 1,
            Token::ParenClose => 1,
            Token::BraceOpen => 1,
            Token::BraceClose => 1,
            Token::Colon => 1,
            Token::Comma => 1,
            Token::Optional(inner) => {
                let wide: u128 = (**inner).len() as u128 + 9;
                if wide > usize::MAX as u128 {
                    usize::MAX
                } else {
                    wide as usize
                }
            },
        }
    }
}

} // verus!
