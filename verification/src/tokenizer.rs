//! The tokenizer: a line-oriented lexical state machine. The specification
//! side defines the machine as a fold over the characters of each line; the
//! executable side is proved to compute exactly that fold.

use vstd::prelude::*;
use crate::error::TokenizationError;
use crate::error::TokenizationErrorV;
use crate::numbers::canonical_number;
use crate::numbers::canonical_number_chars;
use crate::numbers::canonical_real;
use crate::numbers::exp32_grammar;
use crate::numbers::exp_val;
use crate::numbers::find_char2;
use crate::numbers::int_literal_grammar;
use crate::numbers::int_literal_val;
use crate::numbers::parse_int_chars;
use crate::numbers::parse_exp32_chars;
use crate::numbers::real_grammar;
use crate::numbers::copy_range;
use crate::text::chars_of;
use crate::text::chars_eq_str;
use crate::text::char_is_alphanumeric;
use crate::text::char_is_numeric;
use crate::text::char_is_whitespace;
use crate::text::is_decimal_digit;
use crate::text::string_of;
use crate::text::unicode_alphanumeric;
use crate::text::unicode_numeric;
use crate::text::unicode_whitespace;
use crate::token::get_keyword_chars;
use crate::token::spec_keyword;
use crate::token::tokens_view;
use crate::token::PositionedToken;
use crate::token::Token;
use crate::token::TokenV;

verus! {

// ---------------------------------------------------------------------------
// Escape sequences within string literals.
// ---------------------------------------------------------------------------

pub open spec fn spec_escape_char(c: char) -> Option<char> {
    if c == 'n' {
        Some('\n')
    } else if c == 'r' {
        Some('\r')
    } else if c == 't' {
        Some('\t')
    } else if c == '\\' {
        Some('\\')
    } else if c == '\'' {
        Some('\'')
    } else if c == '"' {
        Some('"')
    } else {
        None
    }
}

/// Maps an escape mark to the character it stands for.
pub fn get_escape_char(ch: &char) -> (r: Option<char>)
    ensures
        r == spec_escape_char(*ch),
{
    let c = *ch;
    if c == 'n' {
        Some('\n')
    } else if c == 'r' {
        Some('\r')
    } else if c == 't' {
        Some('\t')
    } else if c == '\\' {
        Some('\\')
    } else if c == '\'' {
        Some('\'')
    } else if c == '"' {
        Some('"')
    } else {
        None
    }
}

// ---------------------------------------------------------------------------
// Identifier shape.
// ---------------------------------------------------------------------------

/// A word may serve as an identifier unless it opens with a decimal digit.
pub open spec fn spec_valid_identifier(s: Seq<char>) -> bool {
    !(s.len() > 0 && is_decimal_digit(s[0]))
}

/// Whether the word may serve as an identifier.
pub fn is_valid_identifier(identifier: &str) -> (r: bool)
    ensures
        r == spec_valid_identifier(identifier@),
{
    let v = chars_of(identifier);
    is_valid_identifier_chars(&v)
}

pub(crate) fn is_valid_identifier_chars(v: &Vec<char>) -> (r: bool)
    ensures
        r == spec_valid_identifier(v@),
{
    if v.len() == 0 {
        return true;
    }
    let cu = v[0] as u32;
    !(48 <= cu && cu <= 57)
}

// ---------------------------------------------------------------------------
// Classification of a flushed word.
// ---------------------------------------------------------------------------

/// Whether the word has the explicit scientific shape: a real literal, a
/// lowercase exponent mark, and a 32-bit exponent.
pub open spec fn sci_shape(s: Seq<char>) -> bool {
    match find_char2(s, 'e', 'e') {
        None => false,
        Some(i) => real_grammar(s.take(i)) && exp32_grammar(s.skip(i + 1)),
    }
}

/// What a flushed word becomes: a keyword, a boolean, an integer, a real
/// (plain or scientific), a dotted reference, or an identifier; a word or
/// dotted entity that opens with a digit is rejected.
pub open spec fn spec_get_token(s: Seq<char>, line: int, col: int) -> Result<
    TokenV,
    TokenizationErrorV,
> {
    if spec_keyword(s) is Some {
        Ok(TokenV::Keyword(spec_keyword(s)->0))
    } else if s == "true"@ {
        Ok(TokenV::Boolean(true))
    } else if s == "false"@ {
        Ok(TokenV::Boolean(false))
    } else if int_literal_grammar(s) {
        Ok(TokenV::Integer(int_literal_val(s)))
    } else if real_grammar(s) {
        Ok(TokenV::Real(canonical_real(s)))
    } else if sci_shape(s) {
        let i = find_char2(s, 'e', 'e')->0;
        Ok(TokenV::Real(canonical_number(s.take(i), exp_val(s.skip(i + 1)))))
    } else if find_char2(s, '.', '.') is Some {
        let d = find_char2(s, '.', '.')->0;
        let entity = s.take(d);
        let property = s.skip(d + 1);
        if !spec_valid_identifier(entity) {
            Err(TokenizationErrorV::IdentifierBeginsWithDigit { identifier: entity, line, column: col })
        } else {
            Ok(TokenV::Reference(entity, property))
        }
    } else if !spec_valid_identifier(s) {
        Err(TokenizationErrorV::IdentifierBeginsWithDigit { identifier: s, line, column: col })
    } else {
        Ok(TokenV::Identifier(s))
    }
}

pub(crate) fn get_token_chars(v: &Vec<char>, line_number: usize, column: usize) -> (r: Result<
    Token,
    TokenizationError,
>)
    ensures
        match spec_get_token(v@, line_number as int, column as int) {
            Ok(tv) => r matches Ok(t) && t@ == tv,
            Err(ev) => r matches Err(e) && e@ == ev,
        },
{
    if let Some(k) = get_keyword_chars(v) {
        return Ok(Token::Keyword(k));
    }
    if chars_eq_str(v, "true") {
        return Ok(Token::Boolean(true));
    }
    if chars_eq_str(v, "false") {
        return Ok(Token::Boolean(false));
    }
    if let Some(i) = parse_int_chars(v) {
        return Ok(Token::Integer(i));
    }
    if let Some(o) = canonical_number_chars(v, 0) {
        return Ok(Token::Real(string_of(&o)));
    }
    let n = v.len();
    match crate::numbers::find_char2_in(v, 'e', 'e') {
        Some(i) => {
            let expv = copy_range(v, i + 1, n);
            proof {
                assert(expv@ =~= v@.skip(i as int + 1));
            }
            if let Some(e) = parse_exp32_chars(&expv) {
                let base = copy_range(v, 0, i);
                proof {
                    assert(base@ =~= v@.take(i as int));
                }
                if let Some(o) = canonical_number_chars(&base, e) {
                    return Ok(Token::Real(string_of(&o)));
                }
            }
        },
        None => {},
    }
    match crate::numbers::find_char2_in(v, '.', '.') {
        Some(d) => {
            let entity = copy_range(v, 0, d);
            let property = copy_range(v, d + 1, n);
            proof {
                assert(entity@ =~= v@.take(d as int));
                assert(property@ =~= v@.skip(d as int + 1));
            }
            if !is_valid_identifier_chars(&entity) {
                Err(TokenizationError::IdentifierBeginsWithDigit {
                    identifier: string_of(&entity),
                    line: line_number,
                    column,
                })
            } else {
                Ok(Token::Reference(string_of(&entity), string_of(&property)))
            }
        },
        None => {
            if !is_valid_identifier_chars(v) {
                Err(TokenizationError::IdentifierBeginsWithDigit {
                    identifier: string_of(v),
                    line: line_number,
                    column,
                })
            } else {
                Ok(Token::Identifier(string_of(v)))
            }
        },
    }
}

/// Classifies one whitespace-free word.
pub fn get_token(token_str: &str, line_number: usize, column: usize) -> (r: Result<
    Token,
    TokenizationError,
>)
    ensures
        match spec_get_token(token_str@, line_number as int, column as int) {
            Ok(tv) => r matches Ok(t) && t@ == tv,
            Err(ev) => r matches Err(e) && e@ == ev,
        },
{
    let v = chars_of(token_str);
    get_token_chars(&v, line_number, column)
}

// ---------------------------------------------------------------------------
// The per-line machine: tokens emitted so far, the pending word, and the
// string-literal state, folded over the characters of one line.
// ---------------------------------------------------------------------------

pub struct LineState {
    pub toks: Seq<(TokenV, int, int)>,
    pub buf: Seq<char>,
    pub in_str: bool,
    pub esc: bool,
    pub open_col: int,
}

pub open spec fn line_init() -> LineState {
    LineState {
        toks: Seq::empty(),
        buf: Seq::empty(),
        in_str: false,
        esc: false,
        open_col: 0,
    }
}

/// Classifies the pending word, if any, and appends it; its column is where
/// the word began.
pub open spec fn spec_flush_toks(
    toks: Seq<(TokenV, int, int)>,
    buf: Seq<char>,
    n: int,
    col: int,
) -> Result<Seq<(TokenV, int, int)>, TokenizationErrorV> {
    if buf.len() == 0 {
        Ok(toks)
    } else {
        match spec_get_token(buf, n, col) {
            Ok(tv) => Ok(toks.push((tv, n, col - buf.len()))),
            Err(e) => Err(e),
        }
    }
}

pub open spec fn spec_flush(st: LineState, n: int, col: int) -> Result<
    LineState,
    TokenizationErrorV,
> {
    match spec_flush_toks(st.toks, st.buf, n, col) {
        Ok(ts) => Ok(
            LineState {
                toks: ts,
                buf: Seq::empty(),
                in_str: st.in_str,
                esc: st.esc,
                open_col: st.open_col,
            },
        ),
        Err(e) => Err(e),
    }
}

/// One step of the machine on the character at `i`; the column of that
/// character is `i + 1`.
pub open spec fn spec_line_step(st: LineState, line: Seq<char>, n: int, i: int) -> Result<
    LineState,
    TokenizationErrorV,
> {
    let c = line[i];
    let col = i + 1;
    if st.in_str {
        if st.esc {
            match spec_escape_char(c) {
                Some(ec) => Ok(
                    LineState {
                        toks: st.toks,
                        buf: st.buf.push(ec),
                        in_str: st.in_str,
                        esc: false,
                        open_col: st.open_col,
                    },
                ),
                None => Err(
                    TokenizationErrorV::UnknownEscapeSequence {
                        character: c,
                        line: n,
                        column: col,
                    },
                ),
            }
        } else if c == '\\' {
            Ok(
                LineState {
                    toks: st.toks,
                    buf: st.buf,
                    in_str: st.in_str,
                    esc: true,
                    open_col: st.open_col,
                },
            )
        } else if c == '\'' {
            Ok(
                LineState {
                    toks: st.toks.push((TokenV::StringLiteral(st.buf), n, col - st.buf.len())),
                    buf: Seq::empty(),
                    in_str: false,
                    esc: st.esc,
                    open_col: st.open_col,
                },
            )
        } else {
            Ok(
                LineState {
                    toks: st.toks,
                    buf: st.buf.push(c),
                    in_str: st.in_str,
                    esc: st.esc,
                    open_col: st.open_col,
                },
            )
        }
    } else if unicode_whitespace(c) {
        spec_flush(st, n, col)
    } else if c == '\'' && st.buf.len() == 0 {
        Ok(
            LineState {
                toks: st.toks,
                buf: st.buf,
                in_str: true,
                esc: st.esc,
                open_col: col,
            },
        )
    } else if c == '_' && st.buf.len() > 0 {
        if !spec_valid_identifier(st.buf) {
            Err(TokenizationErrorV::UnexpectedCharacter { character: c, line: n, column: col })
        } else {
            Ok(
                LineState {
                    toks: st.toks,
                    buf: st.buf.push('_'),
                    in_str: st.in_str,
                    esc: st.esc,
                    open_col: st.open_col,
                },
            )
        }
    } else if c == '.' {
        if i + 1 < line.len() {
            let nc = line[i + 1];
            if (st.buf.len() > 0 && unicode_alphanumeric(nc)) || unicode_numeric(nc) {
                Ok(
                    LineState {
                        toks: st.toks,
                        buf: st.buf.push('.'),
                        in_str: st.in_str,
                        esc: st.esc,
                        open_col: st.open_col,
                    },
                )
            } else if unicode_whitespace(nc) {
                Err(TokenizationErrorV::UnexpectedCharacter { character: c, line: n, column: col })
            } else {
                Err(TokenizationErrorV::UnexpectedCharacter { character: nc, line: n, column: col })
            }
        } else {
            Err(TokenizationErrorV::UnexpectedEndOfInput)
        }
    } else if c == '-' && st.buf.len() == 0 {
        if i + 1 < line.len() {
            let nc = line[i + 1];
            if unicode_numeric(nc) || nc == '.' {
                Ok(
                    LineState {
                        toks: st.toks,
                        buf: st.buf.push('-'),
                        in_str: st.in_str,
                        esc: st.esc,
                        open_col: st.open_col,
                    },
                )
            } else {
                Err(TokenizationErrorV::UnexpectedCharacter { character: c, line: n, column: col })
            }
        } else {
            Err(TokenizationErrorV::UnexpectedEndOfInput)
        }
    } else if c == '-' && st.buf.len() > 0 && st.buf.last() == 'e' {
        if i + 1 < line.len() {
            let nc = line[i + 1];
            if unicode_numeric(nc) {
                Ok(
                    LineState {
                        toks: st.toks,
                        buf: st.buf.push('-'),
                        in_str: st.in_str,
                        esc: st.esc,
                        open_col: st.open_col,
                    },
                )
            } else {
                Err(TokenizationErrorV::UnexpectedCharacter { character: c, line: n, column: col })
            }
        } else {
            Err(TokenizationErrorV::UnexpectedEndOfInput)
        }
    } else if c == '?' && st.buf.len() > 0 {
        match spec_get_token(st.buf, n, col) {
            Ok(tv) => Ok(
                LineState {
                    toks: st.toks.push(
                        (TokenV::Optional(Box::new(tv)), n, col - st.buf.len()),
                    ),
                    buf: Seq::empty(),
                    in_str: st.in_str,
                    esc: st.esc,
                    open_col: st.open_col,
                },
            ),
            Err(e) => Err(e),
        }
    } else if unicode_alphanumeric(c) {
        Ok(
            LineState {
                toks: st.toks,
                buf: st.buf.push(c),
                in_str: st.in_str,
                esc: st.esc,
                open_col: st.open_col,
            },
        )
    } else {
        match spec_flush(st, n, col) {
            Err(e) => Err(e),
            Ok(st2) => {
                if c == ':' {
                    Ok(
                        LineState {
                            toks: st2.toks.push((TokenV::Colon, n, col)),
                            buf: st2.buf,
                            in_str: st2.in_str,
                            esc: st2.esc,
                            open_col: st2.open_col,
                        },
                    )
                } else if c == ',' {
                    Ok(
                        LineState {
                            toks: st2.toks.push((TokenV::Comma, n, col)),
                            buf: st2.buf,
                            in_str: st2.in_str,
                            esc: st2.esc,
                            open_col: st2.open_col,
                        },
                    )
                } else if c == '{' {
                    Ok(
                        LineState {
                            toks: st2.toks.push((TokenV::BraceOpen, n, col)),
                            buf: st2.buf,
                            in_str: st2.in_str,
                            esc: st2.esc,
                            open_col: st2.open_col,
                        },
                    )
                } else if c == '}' {
                    Ok(
                        LineState {
                            toks: st2.toks.push((TokenV::BraceClose, n, col)),
                            buf: st2.buf,
                            in_str: st2.in_str,
                            esc: st2.esc,
                            open_col: st2.open_col,
                        },
                    )
                } else if c == '(' {
                    Ok(
                        LineState {
                            toks: st2.toks.push((TokenV::ParenOpen, n, col)),
                            buf: st2.buf,
                            in_str: st2.in_str,
                            esc: st2.esc,
                            open_col: st2.open_col,
                        },
                    )
                } else if c == ')' {
                    Ok(
                        LineState {
                            toks: st2.toks.push((TokenV::ParenClose, n, col)),
                            buf: st2.buf,
                            in_str: st2.in_str,
                            esc: st2.esc,
                            open_col: st2.open_col,
                        },
                    )
                } else {
                    Err(
                        TokenizationErrorV::UnexpectedCharacter {
                            character: c,
                            line: n,
                            column: col,
                        },
                    )
                }
            },
        }
    }
}

/// What the line yields once scanning stops at column `endcol`: an error if
/// a string literal is still open (reported at its opening quote), else the
/// tokens with the pending word flushed.
pub open spec fn spec_line_end(st: LineState, n: int, endcol: int) -> Result<
    Seq<(TokenV, int, int)>,
    TokenizationErrorV,
> {
    if st.in_str {
        Err(TokenizationErrorV::StringLiteralOpened { line: n, column: st.open_col })
    } else {
        match spec_flush(st, n, endcol) {
            Ok(st2) => Ok(st2.toks),
            Err(e) => Err(e),
        }
    }
}

/// The whole-line fold: a comment mark outside a string literal cuts the
/// line short.
pub open spec fn spec_line_loop(line: Seq<char>, n: int, i: int, st: LineState) -> Result<
    Seq<(TokenV, int, int)>,
    TokenizationErrorV,
>
    decreases line.len() - i,
{
    if i >= line.len() {
        spec_line_end(st, n, line.len() as int)
    } else {
        let c = line[i];
        if c == '#' && !st.in_str {
            spec_line_end(st, n, i + 1)
        } else {
            match spec_line_step(st, line, n, i) {
                Ok(st2) => spec_line_loop(line, n, i + 1, st2),
                Err(e) => Err(e),
            }
        }
    }
}

pub open spec fn spec_tokenize_line(line: Seq<char>, n: int) -> Result<
    Seq<(TokenV, int, int)>,
    TokenizationErrorV,
> {
    spec_line_loop(line, n, 0, line_init())
}

broadcast proof fn lemma_tokens_view_push(s: Seq<PositionedToken>, t: PositionedToken)
    ensures
        #[trigger] tokens_view(s.push(t)) == tokens_view(s).push((t.0@, t.1 as int, t.2 as int)),
{
    assert(tokens_view(s.push(t)) =~= tokens_view(s).push((t.0@, t.1 as int, t.2 as int)));
}

fn flush_buf(toks: &mut Vec<PositionedToken>, buf: &mut Vec<char>, n: usize, col: usize) -> (r:
    Option<TokenizationError>)
    requires
        old(buf)@.len() <= col,
    ensures
        match spec_flush_toks(tokens_view(old(toks)@), old(buf)@, n as int, col as int) {
            Ok(ts) => r is None && tokens_view(final(toks)@) == ts && final(buf)@
                == Seq::<char>::empty(),
            Err(e) => r matches Some(x) && x@ == e,
        },
{
    broadcast use lemma_tokens_view_push;

    if buf.len() == 0 {
        return None;
    }
    match get_token_chars(buf, n, col) {
        Ok(t) => {
            let pos = col - buf.len();
            toks.push((t, n, pos));
            buf.clear();
            None
        },
        Err(e) => Some(e),
    }
}

/// Tokenizes one line of source, numbered `line_number`.
pub(crate) fn tokenize_line_chars(line: &Vec<char>, line_number: usize) -> (r: Result<
    Vec<PositionedToken>,
    TokenizationError,
>)
    ensures
        match spec_tokenize_line(line@, line_number as int) {
            Ok(ts) => r matches Ok(v) && tokens_view(v@) == ts,
            Err(e) => r matches Err(x) && x@ == e,
        },
{
    broadcast use lemma_tokens_view_push;

    let ghost n = line_number as int;
    let mut toks: Vec<PositionedToken> = Vec::new();
    let mut buf: Vec<char> = Vec::new();
    let mut in_str = false;
    let mut esc = false;
    let mut open_col: usize = 0;
    let mut i: usize = 0;
    let len = line.len();
    proof {
        assert(tokens_view(toks@) =~= Seq::<(TokenV, int, int)>::empty());
        assert(LineState {
            toks: tokens_view(toks@),
            buf: buf@,
            in_str: in_str,
            esc: esc,
            open_col: open_col as int,
        } == line_init());
    }
    while i < len
        invariant
            i <= len,
            len == line@.len(),
            buf@.len() <= i,
            n == line_number as int,
            spec_line_loop(line@, n, 0, line_init()) == spec_line_loop(
                line@,
                n,
                i as int,
                LineState {
                    toks: tokens_view(toks@),
                    buf: buf@,
                    in_str: in_str,
                    esc: esc,
                    open_col: open_col as int,
                },
            ),
        decreases len - i,
    {
        let ghost st = LineState {
            toks: tokens_view(toks@),
            buf: buf@,
            in_str: in_str,
            esc: esc,
            open_col: open_col as int,
        };
        let c = line[i];
        let col = i + 1;
        if c == '#' && !in_str {
            match flush_buf(&mut toks, &mut buf, line_number, col) {
                Some(e) => {
                    return Err(e);
                },
                None => {
                    return Ok(toks);
                },
            }
        }
        if in_str {
            if esc {
                match get_escape_char(&c) {
                    Some(ec) => {
                        buf.push(ec);
                        esc = false;
                    },
                    None => {
                        return Err(
                            TokenizationError::UnknownEscapeSequence {
                                character: c,
                                line: line_number,
                                column: col,
                            },
                        );
                    },
                }
            } else if c == '\\' {
                esc = true;
            } else if c == '\'' {
                in_str = false;
                let s = string_of(&buf);
                let pos = col - buf.len();
                toks.push((Token::StringLiteral(s), line_number, pos));
                buf.clear();
            } else {
                buf.push(c);
            }
        } else if char_is_whitespace(c) {
            if let Some(e) = flush_buf(&mut toks, &mut buf, line_number, col) {
                return Err(e);
            }
        } else if c == '\'' && buf.len() == 0 {
            in_str = true;
            open_col = col;
        } else if c == '_' && buf.len() > 0 {
            if !is_valid_identifier_chars(&buf) {
                return Err(
                    TokenizationError::UnexpectedCharacter {
                        character: c,
                        line: line_number,
                        column: col,
                    },
                );
            }
            buf.push('_');
        } else if c == '.' {
            if i + 1 < len {
                let nc = line[i + 1];
                let nc_alnum = char_is_alphanumeric(nc);
                let nc_num = char_is_numeric(nc);
                if (buf.len() > 0 && nc_alnum) || nc_num {
                    buf.push('.');
                } else if char_is_whitespace(nc) {
                    return Err(
                        TokenizationError::UnexpectedCharacter {
                            character: c,
                            line: line_number,
                            column: col,
                        },
                    );
                } else {
                    return Err(
                        TokenizationError::UnexpectedCharacter {
                            character: nc,
                            line: line_number,
                            column: col,
                        },
                    );
                }
            } else {
                return Err(TokenizationError::UnexpectedEndOfInput);
            }
        } else if c == '-' && buf.len() == 0 {
            if i + 1 < len {
                let nc = line[i + 1];
                if char_is_numeric(nc) || nc == '.' {
                    buf.push('-');
                } else {
                    return Err(
                        TokenizationError::UnexpectedCharacter {
                            character: c,
                            line: line_number,
                            column: col,
                        },
                    );
                }
            } else {
                return Err(TokenizationError::UnexpectedEndOfInput);
            }
        } else if c == '-' && buf.len() > 0 && buf[buf.len() - 1] == 'e' {
            if i + 1 < len {
                let nc = line[i + 1];
                if char_is_numeric(nc) {
                    buf.push('-');
                } else {
                    return Err(
                        TokenizationError::UnexpectedCharacter {
                            character: c,
                            line: line_number,
                            column: col,
                        },
                    );
                }
            } else {
                return Err(TokenizationError::UnexpectedEndOfInput);
            }
        } else if c == '?' && buf.len() > 0 {
            match get_token_chars(&buf, line_number, col) {
                Ok(t) => {
                    let pos = col - buf.len();
                    toks.push((Token::Optional(Box::new(t)), line_number, pos));
                    buf.clear();
                },
                Err(e) => {
                    return Err(e);
                },
            }
        } else if char_is_alphanumeric(c) {
            buf.push(c);
        } else {
            if let Some(e) = flush_buf(&mut toks, &mut buf, line_number, col) {
                return Err(e);
            }
            let t: Token = if c == ':' {
                Token::Colon
            } else if c == ',' {
                Token::Comma
            } else if c == '{' {
                Token::BraceOpen
            } else if c == '}' {
                Token::BraceClose
            } else if c == '(' {
                Token::ParenOpen
            } else if c == ')' {
                Token::ParenClose
            } else {
                return Err(
                    TokenizationError::UnexpectedCharacter {
                        character: c,
                        line: line_number,
                        column: col,
                    },
                );
            };
            toks.push((t, line_number, col));
        }
        proof {
            let st2 = LineState {
                toks: tokens_view(toks@),
                buf: buf@,
                in_str: in_str,
                esc: esc,
                open_col: open_col as int,
            };
            let stepr = spec_line_step(st, line@, n, i as int);
            assert(stepr is Ok);
            assert(stepr->Ok_0.toks =~= st2.toks);
            assert(stepr == Ok::<LineState, TokenizationErrorV>(st2));
        }
        i = i + 1;
    }
    if in_str {
        return Err(
            TokenizationError::StringLiteralOpened { line: line_number, column: open_col },
        );
    }
    match flush_buf(&mut toks, &mut buf, line_number, len) {
        Some(e) => Err(e),
        None => Ok(toks),
    }
}

/// Tokenizes one line of source, numbered `line_number`.
pub fn tokenize_line(line: &str, line_number: usize) -> (r: Result<
    Vec<PositionedToken>,
    TokenizationError,
>)
    ensures
        match spec_tokenize_line(line@, line_number as int) {
            Ok(ts) => r matches Ok(v) && tokens_view(v@) == ts,
            Err(e) => r matches Err(x) && x@ == e,
        },
{
    let v = chars_of(line);
    tokenize_line_chars(&v, line_number)
}


// ---------------------------------------------------------------------------
// Comment lines, line splitting, and the whole-source tokenizer.
// ---------------------------------------------------------------------------

pub open spec fn spec_is_comment_from(l: Seq<char>, i: int) -> bool
    decreases l.len() - i,
{
    if i < 0 || i >= l.len() {
        false
    } else if unicode_whitespace(l[i]) {
        spec_is_comment_from(l, i + 1)
    } else {
        l[i] == '#'
    }
}

/// Whether the line's first non-whitespace character is the comment mark.
pub open spec fn spec_is_comment(l: Seq<char>) -> bool {
    spec_is_comment_from(l, 0)
}

pub(crate) fn is_comment_chars(v: &Vec<char>) -> (r: bool)
    ensures
        r == spec_is_comment(v@),
{
    let mut i: usize = 0;
    while i < v.len()
        invariant
            i <= v@.len(),
            spec_is_comment(v@) == spec_is_comment_from(v@, i as int),
        decreases v@.len() - i,
    {
        let c = v[i];
        if char_is_whitespace(c) {
            i = i + 1;
        } else {
            return c == '#';
        }
    }
    false
}

/// Whether the line is a comment line, to be skipped whole.
pub fn is_comment(line: &str) -> (r: bool)
    ensures
        r == spec_is_comment(line@),
{
    let v = chars_of(line);
    is_comment_chars(&v)
}

/// Drops one carriage return left at the end of a line split at a line feed.
pub open spec fn strip_cr(l: Seq<char>) -> Seq<char> {
    if l.len() > 0 && l.last() == '\r' {
        l.drop_last()
    } else {
        l
    }
}

pub open spec fn spec_lines_from(s: Seq<char>, i: int, cur: Seq<char>, acc: Seq<Seq<char>>) -> Seq<
    Seq<char>,
>
    decreases s.len() - i,
{
    if i < 0 || i >= s.len() {
        if cur.len() == 0 {
            acc
        } else {
            acc.push(cur)
        }
    } else if s[i] == '\n' {
        spec_lines_from(s, i + 1, Seq::empty(), acc.push(strip_cr(cur)))
    } else {
        spec_lines_from(s, i + 1, cur.push(s[i]), acc)
    }
}

/// The lines of the source: split at line feeds, a carriage return before a
/// line feed dropped, and no final empty line after a terminating line feed.
pub open spec fn spec_lines(s: Seq<char>) -> Seq<Seq<char>> {
    spec_lines_from(s, 0, Seq::empty(), Seq::empty())
}

pub open spec fn vecs_view(vs: Seq<Vec<char>>) -> Seq<Seq<char>> {
    vs.map_values(|x: Vec<char>| x@)
}

broadcast proof fn lemma_vecs_view_push(s: Seq<Vec<char>>, x: Vec<char>)
    ensures
        #[trigger] vecs_view(s.push(x)) == vecs_view(s).push(x@),
{
    assert(vecs_view(s.push(x)) =~= vecs_view(s).push(x@));
}

pub(crate) fn split_lines(v: &Vec<char>) -> (r: Vec<Vec<char>>)
    ensures
        vecs_view(r@) == spec_lines(v@),
{
    broadcast use lemma_vecs_view_push;

    let mut acc: Vec<Vec<char>> = Vec::new();
    let mut cur: Vec<char> = Vec::new();
    let mut i: usize = 0;
    proof {
        assert(vecs_view(acc@) =~= Seq::<Seq<char>>::empty());
    }
    while i < v.len()
        invariant
            i <= v@.len(),
            spec_lines(v@) == spec_lines_from(v@, i as int, cur@, vecs_view(acc@)),
        decreases v@.len() - i,
    {
        let c = v[i];
        let ghost cur0 = cur@;
        let ghost acc0 = vecs_view(acc@);
        if c == '\n' {
            if cur.len() > 0 && cur[cur.len() - 1] == '\r' {
                cur.pop();
            }
            proof {
                assert(cur@ =~= strip_cr(cur0));
            }
            acc.push(cur);
            cur = Vec::new();
            proof {
                assert(vecs_view(acc@) == acc0.push(strip_cr(cur0)));
                assert(cur@ =~= Seq::<char>::empty());
                assert(spec_lines_from(v@, i as int, cur0, acc0) == spec_lines_from(
                    v@,
                    i as int + 1,
                    Seq::empty(),
                    acc0.push(strip_cr(cur0)),
                ));
            }
        } else {
            cur.push(c);
            proof {
                assert(spec_lines_from(v@, i as int, cur0, acc0) == spec_lines_from(
                    v@,
                    i as int + 1,
                    cur0.push(v@[i as int]),
                    acc0,
                ));
            }
        }
        i = i + 1;
    }
    if cur.len() > 0 {
        acc.push(cur);
    }
    acc
}

pub open spec fn spec_tokenize_lines(ls: Seq<Seq<char>>, k: int) -> Result<
    Seq<(TokenV, int, int)>,
    TokenizationErrorV,
>
    decreases ls.len() - k,
{
    if k < 0 || k >= ls.len() {
        Ok(Seq::empty())
    } else if spec_is_comment(ls[k]) {
        spec_tokenize_lines(ls, k + 1)
    } else {
        match spec_tokenize_line(ls[k], k + 1) {
            Err(e) => Err(e),
            Ok(ts) => match spec_tokenize_lines(ls, k + 1) {
                Err(e) => Err(e),
                Ok(rest) => Ok(ts + rest),
            },
        }
    }
}

/// The token stream of a whole source: comment lines are skipped, the other
/// lines are tokenized in order and their tokens concatenated, stopping at
/// the first error.
pub open spec fn spec_tokenize(s: Seq<char>) -> Result<
    Seq<(TokenV, int, int)>,
    TokenizationErrorV,
> {
    spec_tokenize_lines(spec_lines(s), 0)
}

/// Turns source text into a position-annotated token stream.
pub fn tokenize(input: &str) -> (r: Result<Vec<PositionedToken>, TokenizationError>)
    ensures
        match spec_tokenize(input@) {
            Ok(ts) => r matches Ok(v) && tokens_view(v@) == ts,
            Err(e) => r matches Err(x) && x@ == e,
        },
{
    let cs = chars_of(input);
    let lines = split_lines(&cs);
    let ghost ls = vecs_view(lines@);
    let mut toks: Vec<PositionedToken> = Vec::new();
    let mut k: usize = 0;
    proof {
        assert(tokens_view(toks@) =~= Seq::<(TokenV, int, int)>::empty());
    }
    while k < lines.len()
        invariant
            k <= lines@.len(),
            ls == vecs_view(lines@),
            spec_lines(cs@) == ls,
            cs@ == input@,
            match spec_tokenize_lines(ls, k as int) {
                Ok(rest) => spec_tokenize(input@) == Ok::<
                    Seq<(TokenV, int, int)>,
                    TokenizationErrorV,
                >(tokens_view(toks@) + rest),
                Err(e) => spec_tokenize(input@) == Err::<
                    Seq<(TokenV, int, int)>,
                    TokenizationErrorV,
                >(e),
            },
        decreases lines@.len() - k,
    {
        let line = &lines[k];
        proof {
            assert(ls[k as int] == line@);
        }
        if !is_comment_chars(line) {
            match tokenize_line_chars(line, k + 1) {
                Ok(mut ts) => {
                    proof {
                        assert(tokens_view(toks@ + ts@) =~= tokens_view(toks@) + tokens_view(
                            ts@,
                        ));
                    }
                    let ghost rest0 = spec_tokenize_lines(ls, k as int + 1);
                    toks.append(&mut ts);
                    proof {
                        if rest0 is Ok {
                            assert(tokens_view(toks@) + rest0->Ok_0 =~= spec_tokenize(
                                input@,
                            )->Ok_0);
                        }
                    }
                },
                Err(e) => {
                    return Err(e);
                },
            }
        }
        k = k + 1;
    }
    proof {
        assert(tokens_view(toks@) + Seq::<(TokenV, int, int)>::empty() =~= tokens_view(toks@));
    }
    Ok(toks)
}

} // verus!
