//! The parser: a fail-fast recursive descent with one token of lookahead
//! over the positioned token stream. The specification side defines the
//! descent as recursive functions over the stream; the executable side is
//! proved to compute exactly what they describe.

use vstd::prelude::*;
use crate::error::ParseError;
use crate::error::ParseErrorV;
use crate::schema::views_of;
use crate::schema::ArgumentV;
use crate::schema::ArgumentValueV;
use crate::schema::ArgumentsV;
use crate::schema::DataTypeWithSpan;
use crate::schema::DataTypeWithSpanV;
use crate::schema::EnumV;
use crate::schema::EnumVariantV;
use crate::schema::FieldV;
use crate::schema::FunctionCallContext;
use crate::schema::FunctionCallContextV;
use crate::schema::FunctionCallV;
use crate::schema::ModelV;
use crate::schema::PropertyV;
use crate::schema::ReferenceV;
use crate::schema::Schema;
use crate::schema::SchemaV;
use crate::schema::Argument;
use crate::schema::ArgumentValue;
use crate::schema::Enum;
use crate::schema::EnumVariant;
use crate::schema::Field;
use crate::schema::FunctionCall;
use crate::schema::Model;
use crate::schema::Property;
use crate::schema::Reference;
use crate::text::str_eq;
use crate::token::tokens_view;
use crate::token::Keyword;
use crate::token::PositionedToken;
use crate::token::Token;
use crate::token::TokenV;
use crate::tokenizer::tokenize;
use crate::tokenizer::spec_tokenize;
use crate::types::DataType;
use crate::types::DataTypeV;
use crate::value::Value;
use crate::value::ValueV;

verus! {

/// Clamps an index into the range a recursive step can reach; parsing
/// positions only ever move forward and never past the end, so this only
/// serves the termination measure.
pub open spec fn adv(j: int, i: int, n: int) -> int {
    if j <= i {
        i + 1
    } else if j > n {
        n
    } else {
        j
    }
}

// ---------------------------------------------------------------------------
// Declared types.
// ---------------------------------------------------------------------------

/// The data type a type token denotes: a type keyword, an optional wrapper,
/// or an identifier naming an enum.
pub open spec fn sp_data_type(t: TokenV, l: int, c: int) -> Result<DataTypeV, ParseErrorV>
    decreases t,
{
    match t {
        TokenV::Keyword(kw) => match kw {
            Keyword::String => Ok(DataTypeV::String),
            Keyword::Integer => Ok(DataTypeV::Integer),
            Keyword::Real => Ok(DataTypeV::Real),
            Keyword::Boolean => Ok(DataTypeV::Boolean),
            Keyword::Blob => Ok(DataTypeV::Blob),
            Keyword::Timestamp => Ok(DataTypeV::Timestamp),
            _ => Err(
                ParseErrorV::UnexpectedToken { token: TokenV::Keyword(kw), line_number: l, column: c },
            ),
        },
        TokenV::Optional(inner) => match sp_data_type(*inner, l, c) {
            Ok(dt) => Ok(DataTypeV::Optional(Box::new(dt))),
            Err(e) => Err(e),
        },
        TokenV::Identifier(id) => Ok(DataTypeV::Enum(id)),
        _ => Err(ParseErrorV::UnexpectedToken { token: t, line_number: l, column: c }),
    }
}

fn data_type_of_token(t: &Token, l: usize, c: usize) -> (r: Result<DataType, ParseError>)
    ensures
        match sp_data_type(t@, l as int, c as int) {
            Ok(dtv) => r matches Ok(dt) && dt@ == dtv,
            Err(e) => r matches Err(x) && x@ == e,
        },
    decreases t,
{
    match t {
        Token::Keyword(kw) => match kw {
            Keyword::String => Ok(DataType::String),
            Keyword::Integer => Ok(DataType::Integer),
            Keyword::Real => Ok(DataType::Real),
            Keyword::Boolean => Ok(DataType::Boolean),
            Keyword::Blob => Ok(DataType::Blob),
            Keyword::Timestamp => Ok(DataType::Timestamp),
            _ => Err(
                ParseError::UnexpectedToken {
                    token: Token::Keyword(*kw),
                    line_number: l,
                    column: c,
                },
            ),
        },
        Token::Optional(inner) => match data_type_of_token(&**inner, l, c) {
            Ok(dt) => Ok(DataType::Optional(Box::new(dt))),
            Err(e) => Err(e),
        },
        Token::Identifier(id) => Ok(DataType::Enum(id.clone())),
        _ => Err(
            ParseError::UnexpectedToken { token: t.clone(), line_number: l, column: c },
        ),
    }
}

// ---------------------------------------------------------------------------
// The specification of the descent. Each function takes the stream and the
// index of the next token, and yields its result together with the index of
// the first token it did not consume.
// ---------------------------------------------------------------------------

pub type TokSeq = Seq<(TokenV, int, int)>;

/// A declaration's name: an identifier not yet in use, followed by an
/// opening brace.
pub open spec fn sp_entity_name(toks: TokSeq, i: int, ids: Seq<Seq<char>>) -> (Result<
    Seq<char>,
    ParseErrorV,
>, int) {
    if i >= toks.len() {
        (Err(ParseErrorV::UnexpectedEndOfTokens), i)
    } else {
        let (t, l, c) = toks[i];
        match t {
            TokenV::Identifier(name) => {
                if ids.contains(name) {
                    (
                        Err(
                            ParseErrorV::IdentifierAlreadyInUse {
                                identifier: name,
                                line_number: l,
                                column: c,
                            },
                        ),
                        i,
                    )
                } else if i + 1 >= toks.len() {
                    (Err(ParseErrorV::UnexpectedEndOfTokens), i)
                } else {
                    let (t2, l2, c2) = toks[i + 1];
                    match t2 {
                        TokenV::BraceOpen => (Ok(name), i + 2),
                        _ => (
                            Err(
                                ParseErrorV::UnexpectedToken {
                                    token: t2,
                                    line_number: l2,
                                    column: c2,
                                },
                            ),
                            i,
                        ),
                    }
                }
            },
            _ => (
                Err(ParseErrorV::UnexpectedToken { token: t, line_number: l, column: c }),
                i,
            ),
        }
    }
}

/// An enum body: bare identifiers, unique within the enum, up to the
/// closing brace, which gives the enum its recorded position.
pub open spec fn sp_parse_enum(
    ename: Seq<char>,
    toks: TokSeq,
    i: int,
    variants: Seq<EnumVariantV>,
    seen: Seq<Seq<char>>,
) -> (Result<EnumV, ParseErrorV>, int)
    decreases toks.len() - i,
{
    if i >= toks.len() {
        (Err(ParseErrorV::UnexpectedEndOfTokens), i)
    } else {
        let (t, l, c) = toks[i];
        match t {
            TokenV::BraceClose => (
                Ok(EnumV { name: ename, variants, line_number: l, column: c }),
                i + 1,
            ),
            TokenV::Identifier(v) => {
                if seen.contains(v) {
                    (
                        Err(
                            ParseErrorV::EnumVariantAlreadyExists {
                                variant: v,
                                enum_name: ename,
                                line_number: l,
                                column: c,
                            },
                        ),
                        i,
                    )
                } else {
                    sp_parse_enum(
                        ename,
                        toks,
                        i + 1,
                        variants.push(EnumVariantV { name: v, line_number: l, column: c }),
                        seen.push(v),
                    )
                }
            },
            _ => (
                Err(ParseErrorV::UnexpectedToken { token: t, line_number: l, column: c }),
                i,
            ),
        }
    }
}

/// A function-call property: comma-separated arguments up to the closing
/// parenthesis; an argument is an identifier, a reference, a literal, or a
/// nested call.
pub open spec fn sp_parse_function_call(
    fname: Seq<char>,
    ctx: FunctionCallContextV,
    toks: TokSeq,
    i: int,
    fl: int,
    fc: int,
    args: Seq<ArgumentV>,
) -> (Result<FunctionCallV, ParseErrorV>, int)
    decreases toks.len() - i, 1int,
{
    if i >= toks.len() {
        (Err(ParseErrorV::UnexpectedEndOfTokens), i)
    } else {
        let (t, l, c) = toks[i];
        match t {
            TokenV::ParenClose => (
                Ok(
                    FunctionCallV {
                        name: fname,
                        arguments: ArgumentsV { list: args, line_number: fl, column: fc },
                        context: ctx,
                        line_number: fl,
                        column: fc,
                    },
                ),
                i + 1,
            ),
            TokenV::Identifier(id) => {
                if i + 1 < toks.len() && toks[i + 1].0 is ParenOpen {
                    let nested_col = if c >= id.len() {
                        c - id.len()
                    } else {
                        0
                    };
                    let inner_ctx = FunctionCallContextV {
                        property_name: fname,
                        property_data_type: ctx.property_data_type,
                    };
                    let rec = sp_parse_function_call(
                        id,
                        inner_ctx,
                        toks,
                        i + 2,
                        l,
                        nested_col,
                        Seq::empty(),
                    );
                    match rec.0 {
                        Err(e) => (Err(e), rec.1),
                        Ok(inner) => sp_fc_after_arg(
                            fname,
                            ctx,
                            toks,
                            adv(rec.1, i, toks.len() as int),
                            fl,
                            fc,
                            args,
                            ArgumentV {
                                value: ArgumentValueV::FunctionCall(Box::new(inner)),
                                line_number: l,
                                column: c,
                            },
                        ),
                    }
                } else {
                    sp_fc_after_arg(
                        fname,
                        ctx,
                        toks,
                        i + 1,
                        fl,
                        fc,
                        args,
                        ArgumentV {
                            value: ArgumentValueV::Identifier(id),
                            line_number: l,
                            column: c,
                        },
                    )
                }
            },
            TokenV::Reference(entity, property) => {
                if property.contains('.') {
                    (
                        Err(
                            ParseErrorV::InvalidReference {
                                entity: entity,
                                property: property,
                                line_number: l,
                                column: c,
                            },
                        ),
                        i,
                    )
                } else {
                    sp_fc_after_arg(
                        fname,
                        ctx,
                        toks,
                        i + 1,
                        fl,
                        fc,
                        args,
                        ArgumentV {
                            value: ArgumentValueV::Reference(
                                ReferenceV {
                                    entity: entity,
                                    property: property,
                                    line_number: l,
                                    column: c,
                                },
                            ),
                            line_number: l,
                            column: c,
                        },
                    )
                }
            },
            TokenV::StringLiteral(s) => sp_fc_after_arg(
                fname,
                ctx,
                toks,
                i + 1,
                fl,
                fc,
                args,
                ArgumentV {
                    value: ArgumentValueV::Value(ValueV::StringLiteral(s)),
                    line_number: l,
                    column: c,
                },
            ),
            TokenV::Integer(x) => sp_fc_after_arg(
                fname,
                ctx,
                toks,
                i + 1,
                fl,
                fc,
                args,
                ArgumentV {
                    value: ArgumentValueV::Value(ValueV::Integer(x)),
                    line_number: l,
                    column: c,
                },
            ),
            TokenV::Real(rs) => sp_fc_after_arg(
                fname,
                ctx,
                toks,
                i + 1,
                fl,
                fc,
                args,
                ArgumentV {
                    value: ArgumentValueV::Value(ValueV::Real(rs)),
                    line_number: l,
                    column: c,
                },
            ),
            TokenV::Boolean(b) => sp_fc_after_arg(
                fname,
                ctx,
                toks,
                i + 1,
                fl,
                fc,
                args,
                ArgumentV {
                    value: ArgumentValueV::Value(ValueV::Boolean(b)),
                    line_number: l,
                    column: c,
                },
            ),
            _ => (
                Err(ParseErrorV::UnexpectedToken { token: t, line_number: l, column: c }),
                i,
            ),
        }
    }
}

/// After one argument: a comma keeps the argument and goes on; a closing
/// parenthesis keeps it and ends the call; nothing else may follow.
pub open spec fn sp_fc_after_arg(
    fname: Seq<char>,
    ctx: FunctionCallContextV,
    toks: TokSeq,
    i: int,
    fl: int,
    fc: int,
    args: Seq<ArgumentV>,
    arg: ArgumentV,
) -> (Result<FunctionCallV, ParseErrorV>, int)
    decreases toks.len() - i, 0int,
{
    if i >= toks.len() {
        (Err(ParseErrorV::UnexpectedEndOfTokens), i)
    } else {
        let (t, l, c) = toks[i];
        match t {
            TokenV::Comma => sp_parse_function_call(fname, ctx, toks, i + 1, fl, fc, args.push(arg)),
            TokenV::ParenClose => (
                Ok(
                    FunctionCallV {
                        name: fname,
                        arguments: ArgumentsV {
                            list: args.push(arg),
                            line_number: fl,
                            column: fc,
                        },
                        context: ctx,
                        line_number: fl,
                        column: fc,
                    },
                ),
                i + 1,
            ),
            _ => (
                Err(ParseErrorV::UnexpectedToken { token: t, line_number: l, column: c }),
                i,
            ),
        }
    }
}

/// A field declaration: the declared type, then properties up to the comma
/// or closing brace that ends the field and gives it its recorded position.
pub open spec fn sp_field_props(
    name: Seq<char>,
    dt: DataTypeWithSpanV,
    toks: TokSeq,
    i: int,
    props: Seq<PropertyV>,
) -> (Result<FieldV, ParseErrorV>, int)
    decreases toks.len() - i,
{
    if i >= toks.len() {
        (Err(ParseErrorV::UnexpectedEndOfTokens), i)
    } else {
        let (t, l, c) = toks[i];
        match t {
            TokenV::Comma => (
                Ok(
                    FieldV {
                        name: name,
                        data_type: dt,
                        properties: props,
                        line_number: l,
                        column: c,
                    },
                ),
                i + 1,
            ),
            TokenV::BraceClose => (
                Ok(
                    FieldV {
                        name: name,
                        data_type: dt,
                        properties: props,
                        line_number: l,
                        column: c,
                    },
                ),
                i,
            ),
            TokenV::Identifier(id) => {
                if i + 1 < toks.len() && toks[i + 1].0 is ParenOpen {
                    let ctx = FunctionCallContextV {
                        property_name: name,
                        property_data_type: dt,
                    };
                    let rec = sp_parse_function_call(id, ctx, toks, i + 2, l, c, Seq::empty());
                    match rec.0 {
                        Err(e) => (Err(e), rec.1),
                        Ok(fcv) => sp_field_props(
                            name,
                            dt,
                            toks,
                            adv(rec.1, i, toks.len() as int),
                            props.push(PropertyV::FunctionCall(fcv)),
                        ),
                    }
                } else {
                    (
                        Err(
                            ParseErrorV::UnexpectedToken {
                                token: TokenV::Identifier(id),
                                line_number: l,
                                column: c,
                            },
                        ),
                        i,
                    )
                }
            },
            TokenV::Keyword(kw) => {
                if kw is PrimaryKey {
                    sp_field_props(name, dt, toks, i + 1, props.push(PropertyV::PrimaryKey))
                } else if kw is AutoIncrement {
                    sp_field_props(name, dt, toks, i + 1, props.push(PropertyV::AutoIncrement))
                } else if kw is Unique {
                    sp_field_props(name, dt, toks, i + 1, props.push(PropertyV::Unique))
                } else {
                    (
                        Err(
                            ParseErrorV::UnexpectedToken {
                                token: TokenV::Keyword(kw),
                                line_number: l,
                                column: c,
                            },
                        ),
                        i,
                    )
                }
            },
            _ => (
                Err(ParseErrorV::UnexpectedToken { token: t, line_number: l, column: c }),
                i,
            ),
        }
    }
}

pub open spec fn sp_parse_field(name: Seq<char>, toks: TokSeq, i: int) -> (Result<
    FieldV,
    ParseErrorV,
>, int) {
    if i >= toks.len() {
        (Err(ParseErrorV::UnexpectedEndOfTokens), i)
    } else {
        let (t, l, c) = toks[i];
        match sp_data_type(t, l, c) {
            Err(e) => (Err(e), i),
            Ok(dtv) => sp_field_props(
                name,
                DataTypeWithSpanV { data_type: dtv, line_number: l, column: c },
                toks,
                i + 1,
                Seq::empty(),
            ),
        }
    }
}

/// A model body: `name : field` entries, field names unique within the
/// model, up to the closing brace, which gives the model its position.
pub open spec fn sp_parse_model(
    mname: Seq<char>,
    toks: TokSeq,
    i: int,
    fields: Seq<FieldV>,
    seen: Seq<Seq<char>>,
) -> (Result<ModelV, ParseErrorV>, int)
    decreases toks.len() - i,
{
    if i >= toks.len() {
        (Err(ParseErrorV::UnexpectedEndOfTokens), i)
    } else {
        let (t, l, c) = toks[i];
        match t {
            TokenV::BraceClose => (
                Ok(ModelV { name: mname, fields, line_number: l, column: c }),
                i + 1,
            ),
            TokenV::Identifier(fname) => {
                if i + 1 >= toks.len() {
                    (Err(ParseErrorV::UnexpectedEndOfTokens), i)
                } else {
                    let (t2, l2, c2) = toks[i + 1];
                    match t2 {
                        TokenV::Colon => {
                            if seen.contains(fname) {
                                (
                                    Err(
                                        ParseErrorV::FieldAlreadyExistsOnModel {
                                            field: fname,
                                            model: mname,
                                            line_number: l,
                                            column: c,
                                        },
                                    ),
                                    i,
                                )
                            } else {
                                let rec = sp_parse_field(fname, toks, i + 2);
                                match rec.0 {
                                    Err(e) => (Err(e), rec.1),
                                    Ok(fv) => sp_parse_model(
                                        mname,
                                        toks,
                                        adv(rec.1, i, toks.len() as int),
                                        fields.push(fv),
                                        seen.push(fname),
                                    ),
                                }
                            }
                        },
                        _ => (
                            Err(
                                ParseErrorV::UnexpectedToken {
                                    token: t2,
                                    line_number: l2,
                                    column: c2,
                                },
                            ),
                            i,
                        ),
                    }
                }
            },
            _ => (
                Err(ParseErrorV::UnexpectedToken { token: t, line_number: l, column: c }),
                i,
            ),
        }
    }
}

/// The top level: a sequence of enum and model declarations sharing one set
/// of names.
pub open spec fn sp_parse(
    toks: TokSeq,
    i: int,
    enums: Seq<EnumV>,
    models: Seq<ModelV>,
    ids: Seq<Seq<char>>,
) -> Result<SchemaV, ParseErrorV>
    decreases toks.len() - i,
{
    if i >= toks.len() {
        Ok(SchemaV { enums, models })
    } else {
        let (t, l, c) = toks[i];
        match t {
            TokenV::Keyword(kw) => {
                if kw is Enum {
                    let named = sp_entity_name(toks, i + 1, ids);
                    match named.0 {
                        Err(e) => Err(e),
                        Ok(name) => {
                            let rec = sp_parse_enum(
                                name,
                                toks,
                                adv(named.1, i, toks.len() as int),
                                Seq::empty(),
                                Seq::empty(),
                            );
                            match rec.0 {
                                Err(e) => Err(e),
                                Ok(ev) => sp_parse(
                                    toks,
                                    adv(rec.1, i, toks.len() as int),
                                    enums.push(ev),
                                    models,
                                    ids.push(name),
                                ),
                            }
                        },
                    }
                } else if kw is Model {
                    let named = sp_entity_name(toks, i + 1, ids);
                    match named.0 {
                        Err(e) => Err(e),
                        Ok(name) => {
                            let rec = sp_parse_model(
                                name,
                                toks,
                                adv(named.1, i, toks.len() as int),
                                Seq::empty(),
                                Seq::empty(),
                            );
                            match rec.0 {
                                Err(e) => Err(e),
                                Ok(mv) => sp_parse(
                                    toks,
                                    adv(rec.1, i, toks.len() as int),
                                    enums,
                                    models.push(mv),
                                    ids.push(name),
                                ),
                            }
                        },
                    }
                } else {
                    Err(
                        ParseErrorV::UnexpectedToken {
                            token: TokenV::Keyword(kw),
                            line_number: l,
                            column: c,
                        },
                    )
                }
            },
            _ => Err(ParseErrorV::UnexpectedToken { token: t, line_number: l, column: c }),
        }
    }
}

/// The whole pipeline: what parsing the source yields, tokenization
/// included.
pub open spec fn sp_parse_source(s: Seq<char>) -> Result<SchemaV, ParseErrorV> {
    match spec_tokenize(s) {
        Err(e) => Err(ParseErrorV::TokenizationError(e)),
        Ok(ts) => sp_parse(ts, 0, Seq::empty(), Seq::empty(), Seq::empty()),
    }
}

// ---------------------------------------------------------------------------
// The executable descent.
// ---------------------------------------------------------------------------

fn names_contains(v: &Vec<String>, name: &str) -> (r: bool)
    ensures
        r == views_of(v@).contains(name@),
{
    let mut i: usize = 0;
    while i < v.len()
        invariant
            i <= v@.len(),
            forall|j: int| 0 <= j < i ==> #[trigger] views_of(v@)[j] != name@,
        decreases v@.len() - i,
    {
        if str_eq(v[i].as_str(), name) {
            proof {
                assert(views_of(v@)[i as int] == name@);
            }
            return true;
        }
        proof {
            assert(views_of(v@)[i as int] == v@[i as int]@);
        }
        i = i + 1;
    }
    proof {
        if views_of(v@).contains(name@) {
            let j = choose|j: int|
                0 <= j < views_of(v@).len() && views_of(v@)[j] == name@;
            assert(false);
        }
    }
    false
}

fn str_contains_char(s: &str, ch: char) -> (r: bool)
    ensures
        r == s@.contains(ch),
{
    let n = s.unicode_len();
    let mut i: usize = 0;
    while i < n
        invariant
            i <= n,
            n == s@.len(),
            forall|j: int| 0 <= j < i ==> #[trigger] s@[j] != ch,
        decreases n - i,
    {
        if s.get_char(i) == ch {
            proof {
                assert(s@[i as int] == ch);
            }
            return true;
        }
        i = i + 1;
    }
    proof {
        if s@.contains(ch) {
            let j = choose|j: int| 0 <= j < s@.len() && s@[j] == ch;
            assert(false);
        }
    }
    false
}

fn parse_entity_name(toks: &Vec<PositionedToken>, i: usize, ids: &Vec<String>) -> (r: (Result<
    String,
    ParseError,
>, usize))
    requires
        i <= toks@.len(),
    ensures
        ({
            let sp = sp_entity_name(tokens_view(toks@), i as int, views_of(ids@));
            match sp.0 {
                Ok(name) => r.0 matches Ok(n) && n@ == name && r.1 as int == sp.1 && i < r.1
                    <= toks@.len(),
                Err(e) => r.0 matches Err(x) && x@ == e,
            }
        }),
{
    let n = toks.len();
    if i >= n {
        return (Err(ParseError::UnexpectedEndOfTokens), i);
    }
    let tr = &toks[i];
    let l = tr.1;
    let c = tr.2;
    match &tr.0 {
        Token::Identifier(name) => {
            if names_contains(ids, name.as_str()) {
                (
                    Err(
                        ParseError::IdentifierAlreadyInUse {
                            identifier: name.clone(),
                            line_number: l,
                            column: c,
                        },
                    ),
                    i,
                )
            } else if i + 1 >= n {
                (Err(ParseError::UnexpectedEndOfTokens), i)
            } else {
                let tr2 = &toks[i + 1];
                match &tr2.0 {
                    Token::BraceOpen => (Ok(name.clone()), i + 2),
                    _ => (
                        Err(
                            ParseError::UnexpectedToken {
                                token: tr2.0.clone(),
                                line_number: tr2.1,
                                column: tr2.2,
                            },
                        ),
                        i,
                    ),
                }
            }
        },
        _ => (
            Err(
                ParseError::UnexpectedToken { token: tr.0.clone(), line_number: l, column: c },
            ),
            i,
        ),
    }
}

fn parse_enum_body(ename: &String, toks: &Vec<PositionedToken>, i0: usize) -> (r: (Result<
    Enum,
    ParseError,
>, usize))
    requires
        i0 <= toks@.len(),
    ensures
        ({
            let sp = sp_parse_enum(
                ename@,
                tokens_view(toks@),
                i0 as int,
                Seq::empty(),
                Seq::empty(),
            );
            match sp.0 {
                Ok(ev) => r.0 matches Ok(en) && en@ == ev && r.1 as int == sp.1 && i0 < r.1
                    <= toks@.len(),
                Err(e) => r.0 matches Err(x) && x@ == e,
            }
        }),
{
    broadcast use crate::schema::lemma_views_of_push;

    let ghost tv = tokens_view(toks@);
    let n = toks.len();
    let mut variants: Vec<EnumVariant> = Vec::new();
    let mut seen: Vec<String> = Vec::new();
    let mut i: usize = i0;
    proof {
        assert(views_of(variants@) =~= Seq::<EnumVariantV>::empty());
        assert(views_of(seen@) =~= Seq::<Seq<char>>::empty());
    }
    loop
        invariant
            i0 <= i <= n,
            n == tv.len(),
            tv == tokens_view(toks@),
            sp_parse_enum(ename@, tv, i0 as int, Seq::empty(), Seq::empty()) == sp_parse_enum(
                ename@,
                tv,
                i as int,
                views_of(variants@),
                views_of(seen@),
            ),
        decreases n - i,
    {
        if i >= n {
            return (Err(ParseError::UnexpectedEndOfTokens), i);
        }
        let tr = &toks[i];
        let l = tr.1;
        let c = tr.2;
        match &tr.0 {
            Token::BraceClose => {
                return (Ok(Enum::new(ename.clone(), variants, l, c)), i + 1);
            },
            Token::Identifier(v) => {
                if names_contains(&seen, v.as_str()) {
                    return (
                        Err(
                            ParseError::EnumVariantAlreadyExists {
                                variant: v.clone(),
                                enum_name: ename.clone(),
                                line_number: l,
                                column: c,
                            },
                        ),
                        i,
                    );
                }
                let ghost v0 = views_of(variants@);
                let ghost s0 = views_of(seen@);
                variants.push(EnumVariant::new(v.clone(), l, c));
                seen.push(v.clone());
                proof {
                    assert(views_of(variants@) =~= v0.push(
                        EnumVariantV { name: v@, line_number: l as int, column: c as int },
                    ));
                    assert(views_of(seen@) =~= s0.push(v@));
                }
                i = i + 1;
            },
            _ => {
                return (
                    Err(
                        ParseError::UnexpectedToken {
                            token: tr.0.clone(),
                            line_number: l,
                            column: c,
                        },
                    ),
                    i,
                );
            },
        }
    }
}

fn parse_function_call(
    fname: &String,
    ctx: FunctionCallContext,
    toks: &Vec<PositionedToken>,
    i0: usize,
    fl: usize,
    fc: usize,
) -> (r: (Result<FunctionCall, ParseError>, usize))
    requires
        i0 <= toks@.len(),
    ensures
        ({
            let sp = sp_parse_function_call(
                fname@,
                ctx@,
                tokens_view(toks@),
                i0 as int,
                fl as int,
                fc as int,
                Seq::empty(),
            );
            match sp.0 {
                Ok(fv) => r.0 matches Ok(f) && f@ == fv && r.1 as int == sp.1 && i0 < r.1
                    <= toks@.len(),
                Err(e) => r.0 matches Err(x) && x@ == e,
            }
        }),
    decreases toks@.len() - i0,
{
    broadcast use crate::schema::lemma_views_of_push;

    let ghost tv = tokens_view(toks@);
    let n = toks.len();
    let mut args: Vec<Argument> = Vec::new();
    let mut i: usize = i0;
    proof {
        assert(views_of(args@) =~= Seq::<ArgumentV>::empty());
    }
    loop
        invariant
            i0 <= i <= n,
            n == tv.len(),
            tv == tokens_view(toks@),
            sp_parse_function_call(
                fname@,
                ctx@,
                tv,
                i0 as int,
                fl as int,
                fc as int,
                Seq::empty(),
            ) == sp_parse_function_call(
                fname@,
                ctx@,
                tv,
                i as int,
                fl as int,
                fc as int,
                views_of(args@),
            ),
        decreases n - i,
    {
        if i >= n {
            return (Err(ParseError::UnexpectedEndOfTokens), i);
        }
        let tr = &toks[i];
        let l = tr.1;
        let c = tr.2;
        let ghost st_before = sp_parse_function_call(
            fname@,
            ctx@,
            tv,
            i as int,
            fl as int,
            fc as int,
            views_of(args@),
        );
        // build one argument
        let (arg, inext): (Argument, usize) = match &tr.0 {
            Token::ParenClose => {
                let f = FunctionCall::new(fname.clone(), args, ctx, fl, fc);
                return (Ok(f), i + 1);
            },
            Token::Identifier(id) => {
                if i + 1 < n && matches!(&toks[i + 1].0, Token::ParenOpen) {
                    let idlen = id.as_str().unicode_len();
                    let nc: usize = if c >= idlen {
                        c - idlen
                    } else {
                        0
                    };
                    let inner_ctx = FunctionCallContext::new(
                        fname.clone(),
                        ctx.property_data_type.clone(),
                    );
                    let (res, j) = parse_function_call(id, inner_ctx, toks, i + 2, l, nc);
                    match res {
                        Err(e) => {
                            return (Err(e), j);
                        },
                        Ok(inner) => {
                            proof {
                                assert(adv(j as int, i as int, n as int) == j as int);
                            }
                            (Argument::new(ArgumentValue::FunctionCall(inner), l, c), j)
                        },
                    }
                } else {
                    (Argument::new(ArgumentValue::Identifier(id.clone()), l, c), i + 1)
                }
            },
            Token::Reference(entity, property) => {
                if str_contains_char(property.as_str(), '.') {
                    return (
                        Err(
                            ParseError::InvalidReference {
                                entity: entity.clone(),
                                property: property.clone(),
                                line_number: l,
                                column: c,
                            },
                        ),
                        i,
                    );
                }
                (
                    Argument::new(
                        ArgumentValue::Reference(
                            Reference::new(entity.clone(), property.clone(), l, c),
                        ),
                        l,
                        c,
                    ),
                    i + 1,
                )
            },
            Token::StringLiteral(s) => (
                Argument::new(ArgumentValue::Value(Value::StringLiteral(s.clone())), l, c),
                i + 1,
            ),
            Token::Integer(x) => (
                Argument::new(ArgumentValue::Value(Value::Integer(*x)), l, c),
                i + 1,
            ),
            Token::Real(rs) => (
                Argument::new(ArgumentValue::Value(Value::Real(rs.clone())), l, c),
                i + 1,
            ),
            Token::Boolean(b) => (
                Argument::new(ArgumentValue::Value(Value::Boolean(*b)), l, c),
                i + 1,
            ),
            _ => {
                return (
                    Err(
                        ParseError::UnexpectedToken {
                            token: tr.0.clone(),
                            line_number: l,
                            column: c,
                        },
                    ),
                    i,
                );
            },
        };
        proof {
            assert(st_before == sp_fc_after_arg(
                fname@,
                ctx@,
                tv,
                inext as int,
                fl as int,
                fc as int,
                views_of(args@),
                arg@,
            ));
        }
        // what follows the argument
        if inext >= n {
            return (Err(ParseError::UnexpectedEndOfTokens), inext);
        }
        let tr2 = &toks[inext];
        let ghost a0 = views_of(args@);
        let ghost argv = arg@;
        match &tr2.0 {
            Token::Comma => {
                args.push(arg);
                proof {
                    assert(views_of(args@) =~= a0.push(argv));
                }
                i = inext + 1;
            },
            Token::ParenClose => {
                args.push(arg);
                proof {
                    assert(views_of(args@) =~= a0.push(argv));
                }
                let f = FunctionCall::new(fname.clone(), args, ctx, fl, fc);
                return (Ok(f), inext + 1);
            },
            _ => {
                return (
                    Err(
                        ParseError::UnexpectedToken {
                            token: tr2.0.clone(),
                            line_number: tr2.1,
                            column: tr2.2,
                        },
                    ),
                    inext,
                );
            },
        }
    }
}

fn parse_field(name: &String, toks: &Vec<PositionedToken>, i0: usize) -> (r: (Result<
    Field,
    ParseError,
>, usize))
    requires
        i0 <= toks@.len(),
    ensures
        ({
            let sp = sp_parse_field(name@, tokens_view(toks@), i0 as int);
            match sp.0 {
                Ok(fv) => r.0 matches Ok(f) && f@ == fv && r.1 as int == sp.1 && i0 < r.1
                    <= toks@.len(),
                Err(e) => r.0 matches Err(x) && x@ == e,
            }
        }),
{
    broadcast use crate::schema::lemma_views_of_push;

    let ghost tv = tokens_view(toks@);
    let n = toks.len();
    if i0 >= n {
        return (Err(ParseError::UnexpectedEndOfTokens), i0);
    }
    let tr0 = &toks[i0];
    let dl = tr0.1;
    let dc = tr0.2;
    let dt = match data_type_of_token(&tr0.0, dl, dc) {
        Err(e) => {
            return (Err(e), i0);
        },
        Ok(dt) => dt,
    };
    let dts = DataTypeWithSpan::new(dt, dl, dc);
    let mut props: Vec<Property> = Vec::new();
    let mut i: usize = i0 + 1;
    proof {
        assert(views_of(props@) =~= Seq::<PropertyV>::empty());
        assert(sp_parse_field(name@, tv, i0 as int) == sp_field_props(
            name@,
            dts@,
            tv,
            i0 as int + 1,
            Seq::empty(),
        ));
    }
    loop
        invariant
            i0 + 1 <= i <= n,
            n == tv.len(),
            tv == tokens_view(toks@),
            sp_parse_field(name@, tv, i0 as int) == sp_field_props(
                name@,
                dts@,
                tv,
                i as int,
                views_of(props@),
            ),
        decreases n - i,
    {
        if i >= n {
            return (Err(ParseError::UnexpectedEndOfTokens), i);
        }
        let tr = &toks[i];
        let l = tr.1;
        let c = tr.2;
        match &tr.0 {
            Token::Comma => {
                return (Ok(Field::new(name.clone(), dts, props, l, c)), i + 1);
            },
            Token::BraceClose => {
                return (Ok(Field::new(name.clone(), dts, props, l, c)), i);
            },
            Token::Identifier(id) => {
                if i + 1 < n && matches!(&toks[i + 1].0, Token::ParenOpen) {
                    let ctx = FunctionCallContext::new(name.clone(), dts.clone());
                    let (res, j) = parse_function_call(id, ctx, toks, i + 2, l, c);
                    match res {
                        Err(e) => {
                            return (Err(e), j);
                        },
                        Ok(f) => {
                            let ghost p0 = views_of(props@);
                            let ghost fv = f@;
                            props.push(Property::FunctionCall(f));
                            proof {
                                assert(views_of(props@) =~= p0.push(PropertyV::FunctionCall(fv)));
                                assert(adv(j as int, i as int, n as int) == j as int);
                            }
                            i = j;
                        },
                    }
                } else {
                    return (
                        Err(
                            ParseError::UnexpectedToken {
                                token: tr.0.clone(),
                                line_number: l,
                                column: c,
                            },
                        ),
                        i,
                    );
                }
            },
            Token::Keyword(kw) => {
                match kw {
                    Keyword::PrimaryKey => {
                        let ghost p0 = views_of(props@);
                        props.push(Property::PrimaryKey);
                        proof {
                            assert(views_of(props@) =~= p0.push(PropertyV::PrimaryKey));
                        }
                        i = i + 1;
                    },
                    Keyword::AutoIncrement => {
                        let ghost p0 = views_of(props@);
                        props.push(Property::AutoIncrement);
                        proof {
                            assert(views_of(props@) =~= p0.push(PropertyV::AutoIncrement));
                        }
                        i = i + 1;
                    },
                    Keyword::Unique => {
                        let ghost p0 = views_of(props@);
                        props.push(Property::Unique);
                        proof {
                            assert(views_of(props@) =~= p0.push(PropertyV::Unique));
                        }
                        i = i + 1;
                    },
                    _ => {
                        return (
                            Err(
                                ParseError::UnexpectedToken {
                                    token: tr.0.clone(),
                                    line_number: l,
                                    column: c,
                                },
                            ),
                            i,
                        );
                    },
                }
            },
            _ => {
                return (
                    Err(
                        ParseError::UnexpectedToken {
                            token: tr.0.clone(),
                            line_number: l,
                            column: c,
                        },
                    ),
                    i,
                );
            },
        }
    }
}

fn parse_model_body(mname: &String, toks: &Vec<PositionedToken>, i0: usize) -> (r: (Result<
    Model,
    ParseError,
>, usize))
    requires
        i0 <= toks@.len(),
    ensures
        ({
            let sp = sp_parse_model(
                mname@,
                tokens_view(toks@),
                i0 as int,
                Seq::empty(),
                Seq::empty(),
            );
            match sp.0 {
                Ok(mv) => r.0 matches Ok(m) && m@ == mv && r.1 as int == sp.1 && i0 < r.1
                    <= toks@.len(),
                Err(e) => r.0 matches Err(x) && x@ == e,
            }
        }),
{
    broadcast use crate::schema::lemma_views_of_push;

    let ghost tv = tokens_view(toks@);
    let n = toks.len();
    let mut fields: Vec<Field> = Vec::new();
    let mut seen: Vec<String> = Vec::new();
    let mut i: usize = i0;
    proof {
        assert(views_of(fields@) =~= Seq::<FieldV>::empty());
        assert(views_of(seen@) =~= Seq::<Seq<char>>::empty());
    }
    loop
        invariant
            i0 <= i <= n,
            n == tv.len(),
            tv == tokens_view(toks@),
            sp_parse_model(mname@, tv, i0 as int, Seq::empty(), Seq::empty()) == sp_parse_model(
                mname@,
                tv,
                i as int,
                views_of(fields@),
                views_of(seen@),
            ),
        decreases n - i,
    {
        if i >= n {
            return (Err(ParseError::UnexpectedEndOfTokens), i);
        }
        let tr = &toks[i];
        let l = tr.1;
        let c = tr.2;
        match &tr.0 {
            Token::BraceClose => {
                return (Ok(Model::new(mname.clone(), fields, l, c)), i + 1);
            },
            Token::Identifier(fname) => {
                if i + 1 >= n {
                    return (Err(ParseError::UnexpectedEndOfTokens), i);
                }
                let tr2 = &toks[i + 1];
                match &tr2.0 {
                    Token::Colon => {
                        if names_contains(&seen, fname.as_str()) {
                            return (
                                Err(
                                    ParseError::FieldAlreadyExistsOnModel {
                                        field: fname.clone(),
                                        model: mname.clone(),
                                        line_number: l,
                                        column: c,
                                    },
                                ),
                                i,
                            );
                        }
                        let (res, j) = parse_field(fname, toks, i + 2);
                        match res {
                            Err(e) => {
                                return (Err(e), j);
                            },
                            Ok(f) => {
                                let ghost f0 = views_of(fields@);
                                let ghost s0 = views_of(seen@);
                                let ghost fv = f@;
                                fields.push(f);
                                seen.push(fname.clone());
                                proof {
                                    assert(views_of(fields@) =~= f0.push(fv));
                                    assert(views_of(seen@) =~= s0.push(fname@));
                                    assert(adv(j as int, i as int, n as int) == j as int);
                                }
                                i = j;
                            },
                        }
                    },
                    _ => {
                        return (
                            Err(
                                ParseError::UnexpectedToken {
                                    token: tr2.0.clone(),
                                    line_number: tr2.1,
                                    column: tr2.2,
                                },
                            ),
                            i,
                        );
                    },
                }
            },
            _ => {
                return (
                    Err(
                        ParseError::UnexpectedToken {
                            token: tr.0.clone(),
                            line_number: l,
                            column: c,
                        },
                    ),
                    i,
                );
            },
        }
    }
}

/// Parses source text into a schema: tokenization, the descent, and the
/// naming rules, exactly as `sp_parse_source` describes.
pub fn parse(input: &str) -> (r: Result<Schema, ParseError>)
    ensures
        match sp_parse_source(input@) {
            Ok(sv) => r matches Ok(s) && s@ == sv,
            Err(e) => r matches Err(x) && x@ == e,
        },
{
    broadcast use crate::schema::lemma_views_of_push;

    let toks = match tokenize(input) {
        Ok(t) => t,
        Err(e) => {
            return Err(ParseError::TokenizationError(e));
        },
    };
    let ghost tv = tokens_view(toks@);
    let n = toks.len();
    let mut enums: Vec<Enum> = Vec::new();
    let mut models: Vec<Model> = Vec::new();
    let mut ids: Vec<String> = Vec::new();
    let mut i: usize = 0;
    proof {
        assert(views_of(enums@) =~= Seq::<EnumV>::empty());
        assert(views_of(models@) =~= Seq::<ModelV>::empty());
        assert(views_of(ids@) =~= Seq::<Seq<char>>::empty());
    }
    loop
        invariant
            i <= n,
            n == tv.len(),
            tv == tokens_view(toks@),
            sp_parse_source(input@) == sp_parse(
                tv,
                i as int,
                views_of(enums@),
                views_of(models@),
                views_of(ids@),
            ),
        decreases n - i,
    {
        if i >= n {
            return Ok(Schema::new(enums, models));
        }
        let tr = &toks[i];
        let l = tr.1;
        let c = tr.2;
        match &tr.0 {
            Token::Keyword(kw) => {
                match kw {
                    Keyword::Enum => {
                        let (nr, j) = parse_entity_name(&toks, i + 1, &ids);
                        match nr {
                            Err(e) => {
                                return Err(e);
                            },
                            Ok(name) => {
                                let (er, j2) = parse_enum_body(&name, &toks, j);
                                match er {
                                    Err(e) => {
                                        return Err(e);
                                    },
                                    Ok(en) => {
                                        let ghost e0 = views_of(enums@);
                                        let ghost id0 = views_of(ids@);
                                        let ghost ev = en@;
                                        let ghost nv = name@;
                                        enums.push(en);
                                        ids.push(name);
                                        proof {
                                            assert(views_of(enums@) =~= e0.push(ev));
                                            assert(views_of(ids@) =~= id0.push(nv));
                                            assert(adv(j as int, i as int, n as int) == j as int);
                                            assert(adv(j2 as int, i as int, n as int)
                                                == j2 as int);
                                        }
                                        i = j2;
                                    },
                                }
                            },
                        }
                    },
                    Keyword::Model => {
                        let (nr, j) = parse_entity_name(&toks, i + 1, &ids);
                        match nr {
                            Err(e) => {
                                return Err(e);
                            },
                            Ok(name) => {
                                let (mr, j2) = parse_model_body(&name, &toks, j);
                                match mr {
                                    Err(e) => {
                                        return Err(e);
                                    },
                                    Ok(m) => {
                                        let ghost m0 = views_of(models@);
                                        let ghost id0 = views_of(ids@);
                                        let ghost mv = m@;
                                        let ghost nv = name@;
                                        models.push(m);
                                        ids.push(name);
                                        proof {
                                            assert(views_of(models@) =~= m0.push(mv));
                                            assert(views_of(ids@) =~= id0.push(nv));
                                            assert(adv(j as int, i as int, n as int) == j as int);
                                            assert(adv(j2 as int, i as int, n as int)
                                                == j2 as int);
                                        }
                                        i = j2;
                                    },
                                }
                            },
                        }
                    },
                    _ => {
                        return Err(
                            ParseError::UnexpectedToken {
                                token: tr.0.clone(),
                                line_number: l,
                                column: c,
                            },
                        );
                    },
                }
            },
            _ => {
                return Err(
                    ParseError::UnexpectedToken {
                        token: tr.0.clone(),
                        line_number: l,
                        column: c,
                    },
                );
            },
        }
    }
}

impl Schema {
    /// Parses source text into a schema.
    pub fn parse(input: &str) -> (r: Result<Schema, ParseError>)
        ensures
            match sp_parse_source(input@) {
                Ok(sv) => r matches Ok(s) && s@ == sv,
                Err(e) => r matches Err(x) && x@ == e,
            },
    {
        parse(input)
    }
}

} // verus!
