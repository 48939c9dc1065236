//! The error taxonomies of the three stages. Errors are pure data carrying
//! positions and identifying names; rendering them is a separate concern.

use vstd::prelude::*;
use crate::token::Token;
use crate::token::TokenV;

verus! {

// ---------------------------------------------------------------------------
// Tokenization errors.
// ---------------------------------------------------------------------------

#[derive(Debug, PartialEq, Clone)]
pub enum TokenizationError {
    UnexpectedCharacter { character: char, line: usize, column: usize },
    UnknownEscapeSequence { character: char, line: usize, column: usize },
    StringLiteralOpened { line: usize, column: usize },
    IdentifierBeginsWithDigit { identifier: String, line: usize, column: usize },
    UnexpectedEndOfInput,
}

pub enum TokenizationErrorV {
    UnexpectedCharacter { character: char, line: int, column: int },
    UnknownEscapeSequence { character: char, line: int, column: int },
    StringLiteralOpened { line: int, column: int },
    IdentifierBeginsWithDigit { identifier: Seq<char>, line: int, column: int },
    UnexpectedEndOfInput,
}

impl View for TokenizationError {
    type V = TokenizationErrorV;

    open spec fn view(&self) -> TokenizationErrorV {
        match self {
            TokenizationError::UnexpectedCharacter { character, line, column } =>
                TokenizationErrorV::UnexpectedCharacter {
                character: *character,
                line: *line as int,
                column: *column as int,
            },
            TokenizationError::UnknownEscapeSequence { character, line, column } =>
                TokenizationErrorV::UnknownEscapeSequence {
                character: *character,
                line: *line as int,
                column: *column as int,
            },
            TokenizationError::StringLiteralOpened { line, column } =>
                TokenizationErrorV::StringLiteralOpened {
                line: *line as int,
                column: *column as int,
            },
            TokenizationError::IdentifierBeginsWithDigit { identifier, line, column } =>
                TokenizationErrorV::IdentifierBeginsWithDigit {
                identifier: identifier@,
                line: *line as int,
                column: *column as int,
            },
            TokenizationError::UnexpectedEndOfInput => TokenizationErrorV::UnexpectedEndOfInput,
        }
    }
}

// ---------------------------------------------------------------------------
// Parse errors.
// ---------------------------------------------------------------------------

pub enum ParseError {
    TokenizationError(TokenizationError),
    UnexpectedToken { token: Token, line_number: usize, column: usize },
    IdentifierAlreadyInUse { identifier: String, line_number: usize, column: usize },
    FieldAlreadyExistsOnModel { field: String, model: String, line_number: usize, column: usize },
    EnumVariantAlreadyExists {
        variant: String,
        enum_name: String,
        line_number: usize,
        column: usize,
    },
    InvalidReference { entity: String, property: String, line_number: usize, column: usize },
    UnexpectedEndOfTokens,
}

pub enum ParseErrorV {
    TokenizationError(TokenizationErrorV),
    UnexpectedToken { token: TokenV, line_number: int, column: int },
    IdentifierAlreadyInUse { identifier: Seq<char>, line_number: int, column: int },
    FieldAlreadyExistsOnModel {
        field: Seq<char>,
        model: Seq<char>,
        line_number: int,
        column: int,
    },
    EnumVariantAlreadyExists {
        variant: Seq<char>,
        enum_name: Seq<char>,
        line_number: int,
        column: int,
    },
    InvalidReference { entity: Seq<char>, property: Seq<char>, line_number: int, column: int },
    UnexpectedEndOfTokens,
}

impl View for ParseError {
    type V = ParseErrorV;

    open spec fn view(&self) -> ParseErrorV {
        match self {
            ParseError::TokenizationError(e) => ParseErrorV::TokenizationError(e@),
            ParseError::UnexpectedToken { token, line_number, column } =>
                ParseErrorV::UnexpectedToken {
                token: token@,
                line_number: *line_number as int,
                column: *column as int,
            },
            ParseError::IdentifierAlreadyInUse { identifier, line_number, column } =>
                ParseErrorV::IdentifierAlreadyInUse {
                identifier: identifier@,
                line_number: *line_number as int,
                column: *column as int,
            },
            ParseError::FieldAlreadyExistsOnModel { field, model, line_number, column } =>
                ParseErrorV::FieldAlreadyExistsOnModel {
                field: field@,
                model: model@,
                line_number: *line_number as int,
                column: *column as int,
            },
            ParseError::EnumVariantAlreadyExists { variant, enum_name, line_number, column } =>
                ParseErrorV::EnumVariantAlreadyExists {
                variant: variant@,
                enum_name: enum_name@,
                line_number: *line_number as int,
                column: *column as int,
            },
            ParseError::InvalidReference { entity, property, line_number, column } =>
                ParseErrorV::InvalidReference {
                entity: entity@,
                property: property@,
                line_number: *line_number as int,
                column: *column as int,
            },
            ParseError::UnexpectedEndOfTokens => ParseErrorV::UnexpectedEndOfTokens,
        }
    }
}

// ---------------------------------------------------------------------------
// Generation errors.
// ---------------------------------------------------------------------------

#[derive(Debug, PartialEq, Clone)]
pub enum FunctionError {
    InvalidArgument(String),
    MissingArgument,
    ExpectsExactlyOneArgument(String),
    UndefinedFunction(String),
}

pub enum FunctionErrorV {
    InvalidArgument(Seq<char>),
    MissingArgument,
    ExpectsExactlyOneArgument(Seq<char>),
    UndefinedFunction(Seq<char>),
}

impl View for FunctionError {
    type V = FunctionErrorV;

    open spec fn view(&self) -> FunctionErrorV {
        match self {
            FunctionError::InvalidArgument(s) => FunctionErrorV::InvalidArgument(s@),
            FunctionError::MissingArgument => FunctionErrorV::MissingArgument,
            FunctionError::ExpectsExactlyOneArgument(s) => FunctionErrorV::ExpectsExactlyOneArgument(
                s@,
            ),
            FunctionError::UndefinedFunction(s) => FunctionErrorV::UndefinedFunction(s@),
        }
    }
}

#[derive(Debug, PartialEq, Clone)]
pub enum ToSQLError {
    UnknownReference { entity_name: String, line_number: usize, column: usize },
    EnumNotFound { enum_name: String, line_number: usize, column: usize },
    ModelNotFound { model_name: String, line_number: usize, column: usize },
    FieldNotFound { model_name: String, field_name: String, line_number: usize, column: usize },
    VariantNotFound { enum_name: String, variant: String, line_number: usize, column: usize },
    ConversionError { reason: String, line_number: usize, column: usize },
    FunctionError { source: FunctionError, line_number: usize, column: usize },
}

pub enum ToSQLErrorV {
    UnknownReference { entity_name: Seq<char>, line_number: int, column: int },
    EnumNotFound { enum_name: Seq<char>, line_number: int, column: int },
    ModelNotFound { model_name: Seq<char>, line_number: int, column: int },
    FieldNotFound {
        model_name: Seq<char>,
        field_name: Seq<char>,
        line_number: int,
        column: int,
    },
    VariantNotFound { enum_name: Seq<char>, variant: Seq<char>, line_number: int, column: int },
    ConversionError { reason: Seq<char>, line_number: int, column: int },
    FunctionError { source: FunctionErrorV, line_number: int, column: int },
}

impl View for ToSQLError {
    type V = ToSQLErrorV;

    open spec fn view(&self) -> ToSQLErrorV {
        match self {
            ToSQLError::UnknownReference { entity_name, line_number, column } =>
                ToSQLErrorV::UnknownReference {
                entity_name: entity_name@,
                line_number: *line_number as int,
                column: *column as int,
            },
            ToSQLError::EnumNotFound { enum_name, line_number, column } =>
                ToSQLErrorV::EnumNotFound {
                enum_name: enum_name@,
                line_number: *line_number as int,
                column: *column as int,
            },
            ToSQLError::ModelNotFound { model_name, line_number, column } =>
                ToSQLErrorV::ModelNotFound {
                model_name: model_name@,
                line_number: *line_number as int,
                column: *column as int,
            },
            ToSQLError::FieldNotFound { model_name, field_name, line_number, column } =>
                ToSQLErrorV::FieldNotFound {
                model_name: model_name@,
                field_name: field_name@,
                line_number: *line_number as int,
                column: *column as int,
            },
            ToSQLError::VariantNotFound { enum_name, variant, line_number, column } =>
                ToSQLErrorV::VariantNotFound {
                enum_name: enum_name@,
                variant: variant@,
                line_number: *line_number as int,
                column: *column as int,
            },
            ToSQLError::ConversionError { reason, line_number, column } =>
                ToSQLErrorV::ConversionError {
                reason: reason@,
                line_number: *line_number as int,
                column: *column as int,
            },
            ToSQLError::FunctionError { source, line_number, column } =>
                ToSQLErrorV::FunctionError {
                source: source@,
                line_number: *line_number as int,
                column: *column as int,
            },
        }
    }
}

// ---------------------------------------------------------------------------
// Human-readable diagnostics. Errors stay pure data; these functions render
// them, and are what a presentation layer prints.
// ---------------------------------------------------------------------------

/// The common position suffix of a diagnostic.
pub open spec fn sp_at(l: int, c: int) -> Seq<char> {
    " at line "@ + crate::text::dec_nat(l) + ", column "@ + crate::text::dec_nat(c)
}

fn at_pos(l: usize, c: usize) -> (r: String)
    ensures
        r@ == sp_at(l as int, c as int),
{
    let mut out = String::from_str(" at line ");
    let ls = crate::text::usize_to_string(l);
    out.append(ls.as_str());
    out.append(", column ");
    let cs = crate::text::usize_to_string(c);
    out.append(cs.as_str());
    out
}

fn char_string(c: char) -> (r: String)
    ensures
        r@ == seq![c],
{
    let mut v: Vec<char> = Vec::new();
    v.push(c);
    proof {
        assert(v@ =~= seq![c]);
    }
    crate::text::string_of(&v)
}

pub open spec fn sp_tokenization_error_message(e: TokenizationErrorV) -> Seq<char> {
    match e {
        TokenizationErrorV::UnexpectedCharacter { character, line, column } =>
            "Unexpected character '"@ + seq![character] + "'"@ + sp_at(line, column),
        TokenizationErrorV::UnknownEscapeSequence { character, line, column } =>
            "Unexpected character '"@ + seq![character] + "'"@ + sp_at(line, column),
        TokenizationErrorV::StringLiteralOpened { line, column } => "String literal opened"@
            + sp_at(line, column),
        TokenizationErrorV::IdentifierBeginsWithDigit { identifier, line, column } =>
            "Identifier '"@ + identifier + "' cannot begin with a digit"@ + sp_at(line, column),
        TokenizationErrorV::UnexpectedEndOfInput => "Unexpected end of input"@,
    }
}

impl TokenizationError {
    /// Renders this error as a one-line diagnostic.
    pub fn message(&self) -> (r: String)
        ensures
            r@ == sp_tokenization_error_message(self@),
    {
        match self {
            TokenizationError::UnexpectedCharacter { character, line, column } => {
                let mut out = String::from_str("Unexpected character '");
                let cs = char_string(*character);
                out.append(cs.as_str());
                out.append("'");
                let at = at_pos(*line, *column);
                out.append(at.as_str());
                out
            },
            TokenizationError::UnknownEscapeSequence { character, line, column } => {
                let mut out = String::from_str("Unexpected character '");
                let cs = char_string(*character);
                out.append(cs.as_str());
                out.append("'");
                let at = at_pos(*line, *column);
                out.append(at.as_str());
                out
            },
            TokenizationError::StringLiteralOpened { line, column } => {
                let mut out = String::from_str("String literal opened");
                let at = at_pos(*line, *column);
                out.append(at.as_str());
                out
            },
            TokenizationError::IdentifierBeginsWithDigit { identifier, line, column } => {
                let mut out = String::from_str("Identifier '");
                out.append(identifier.as_str());
                out.append("' cannot begin with a digit");
                let at = at_pos(*line, *column);
                out.append(at.as_str());
                out
            },
            TokenizationError::UnexpectedEndOfInput => String::from_str(
                "Unexpected end of input",
            ),
        }
    }
}

pub open spec fn sp_parse_error_message(e: ParseErrorV) -> Seq<char> {
    match e {
        ParseErrorV::TokenizationError(t) => sp_tokenization_error_message(t),
        ParseErrorV::UnexpectedToken { token, line_number, column } => "Unexpected token "@
            + crate::token::spec_token_text(token) + sp_at(line_number, column),
        ParseErrorV::IdentifierAlreadyInUse { identifier, line_number, column } =>
            "Cannot re-define '"@ + identifier + "'"@ + sp_at(line_number, column),
        ParseErrorV::FieldAlreadyExistsOnModel { field, model, line_number, column } => "Field '"@
            + field + "' already exists on model '"@ + model + "', cannot redeclare it"@ + sp_at(
            line_number,
            column,
        ) + "."@,
        ParseErrorV::EnumVariantAlreadyExists { variant, enum_name, line_number, column } =>
            "Enum variant '"@ + variant + "' already exists on enum '"@ + enum_name
            + "', cannot redeclare it"@ + sp_at(line_number, column) + "."@,
        ParseErrorV::InvalidReference { entity, property, line_number, column } =>
            "Invalid Reference: Cannot access '"@ + property + "' of '"@ + entity + "'"@ + sp_at(
            line_number,
            column,
        ),
        ParseErrorV::UnexpectedEndOfTokens => "Unexpected end of tokens"@,
    }
}

impl ParseError {
    /// Renders this error as a one-line diagnostic.
    pub fn message(&self) -> (r: String)
        ensures
            r@ == sp_parse_error_message(self@),
    {
        match self {
            ParseError::TokenizationError(t) => t.message(),
            ParseError::UnexpectedToken { token, line_number, column } => {
                let mut out = String::from_str("Unexpected token ");
                let ts = token.describe();
                out.append(ts.as_str());
                let at = at_pos(*line_number, *column);
                out.append(at.as_str());
                out
            },
            ParseError::IdentifierAlreadyInUse { identifier, line_number, column } => {
                let mut out = String::from_str("Cannot re-define '");
                out.append(identifier.as_str());
                out.append("'");
                let at = at_pos(*line_number, *column);
                out.append(at.as_str());
                out
            },
            ParseError::FieldAlreadyExistsOnModel { field, model, line_number, column } => {
                let mut out = String::from_str("Field '");
                out.append(field.as_str());
                out.append("' already exists on model '");
                out.append(model.as_str());
                out.append("', cannot redeclare it");
                let at = at_pos(*line_number, *column);
                out.append(at.as_str());
                out.append(".");
                out
            },
            ParseError::EnumVariantAlreadyExists { variant, enum_name, line_number, column } => {
                let mut out = String::from_str("Enum variant '");
                out.append(variant.as_str());
                out.append("' already exists on enum '");
                out.append(enum_name.as_str());
                out.append("', cannot redeclare it");
                let at = at_pos(*line_number, *column);
                out.append(at.as_str());
                out.append(".");
                out
            },
            ParseError::InvalidReference { entity, property, line_number, column } => {
                let mut out = String::from_str("Invalid Reference: Cannot access '");
                out.append(property.as_str());
                out.append("' of '");
                out.append(entity.as_str());
                out.append("'");
                let at = at_pos(*line_number, *column);
                out.append(at.as_str());
                out
            },
            ParseError::UnexpectedEndOfTokens => String::from_str("Unexpected end of tokens"),
        }
    }
}

pub open spec fn sp_function_error_message(e: FunctionErrorV, l: int, c: int) -> Seq<char> {
    match e {
        FunctionErrorV::InvalidArgument(msg) => "Invalid argument: "@ + msg + sp_at(l, c),
        FunctionErrorV::MissingArgument => "Missing argument to function"@ + sp_at(l, c),
        FunctionErrorV::ExpectsExactlyOneArgument(func) => func
            + " takes exactly one argument, error"@ + sp_at(l, c),
        FunctionErrorV::UndefinedFunction(func) => "Undefined function '"@ + func + "' called"@
            + sp_at(l, c),
    }
}

pub open spec fn sp_to_sql_error_message(e: ToSQLErrorV) -> Seq<char> {
    match e {
        ToSQLErrorV::UnknownReference { entity_name, line_number, column } =>
            "Unknown reference: "@ + entity_name + sp_at(line_number, column),
        ToSQLErrorV::EnumNotFound { enum_name, line_number, column } => "Enum not found: "@
            + enum_name + sp_at(line_number, column),
        ToSQLErrorV::ModelNotFound { model_name, line_number, column } => "Model not found: "@
            + model_name + sp_at(line_number, column),
        ToSQLErrorV::FieldNotFound { model_name, field_name, line_number, column } => "Field '"@
            + field_name + "' does not exist on model '"@ + model_name + "': line "@
            + crate::text::dec_nat(line_number) + ", column "@ + crate::text::dec_nat(column),
        ToSQLErrorV::VariantNotFound { enum_name, variant, line_number, column } => "Variant '"@
            + variant + "' does not exist on enum '"@ + enum_name + "': line "@
            + crate::text::dec_nat(line_number) + ", column "@ + crate::text::dec_nat(column),
        ToSQLErrorV::ConversionError { reason, line_number, column } => "Conversion error: "@
            + reason + sp_at(line_number, column),
        ToSQLErrorV::FunctionError { source, line_number, column } => sp_function_error_message(
            source,
            line_number,
            column,
        ),
    }
}

impl FunctionError {
    /// Renders this error as a one-line diagnostic, at the call's position.
    pub fn message(&self, line_number: usize, column: usize) -> (r: String)
        ensures
            r@ == sp_function_error_message(self@, line_number as int, column as int),
    {
        match self {
            FunctionError::InvalidArgument(msg) => {
                let mut out = String::from_str("Invalid argument: ");
                out.append(msg.as_str());
                let at = at_pos(line_number, column);
                out.append(at.as_str());
                out
            },
            FunctionError::MissingArgument => {
                let mut out = String::from_str("Missing argument to function");
                let at = at_pos(line_number, column);
                out.append(at.as_str());
                out
            },
            FunctionError::ExpectsExactlyOneArgument(func) => {
                let mut out = func.clone();
                out.append(" takes exactly one argument, error");
                let at = at_pos(line_number, column);
                out.append(at.as_str());
                out
            },
            FunctionError::UndefinedFunction(func) => {
                let mut out = String::from_str("Undefined function '");
                out.append(func.as_str());
                out.append("' called");
                let at = at_pos(line_number, column);
                out.append(at.as_str());
                out
            },
        }
    }
}

impl ToSQLError {
    /// Renders this error as a one-line diagnostic.
    pub fn message(&self) -> (r: String)
        ensures
            r@ == sp_to_sql_error_message(self@),
    {
        match self {
            ToSQLError::UnknownReference { entity_name, line_number, column } => {
                let mut out = String::from_str("Unknown reference: ");
                out.append(entity_name.as_str());
                let at = at_pos(*line_number, *column);
                out.append(at.as_str());
                out
            },
            ToSQLError::EnumNotFound { enum_name, line_number, column } => {
                let mut out = String::from_str("Enum not found: ");
                out.append(enum_name.as_str());
                let at = at_pos(*line_number, *column);
                out.append(at.as_str());
                out
            },
            ToSQLError::ModelNotFound { model_name, line_number, column } => {
                let mut out = String::from_str("Model not found: ");
                out.append(model_name.as_str());
                let at = at_pos(*line_number, *column);
                out.append(at.as_str());
                out
            },
            ToSQLError::FieldNotFound { model_name, field_name, line_number, column } => {
                let mut out = String::from_str("Field '");
                out.append(field_name.as_str());
                out.append("' does not exist on model '");
                out.append(model_name.as_str());
                out.append("': line ");
                let ls = crate::text::usize_to_string(*line_number);
                out.append(ls.as_str());
                out.append(", column ");
                let cs = crate::text::usize_to_string(*column);
                out.append(cs.as_str());
                out
            },
            ToSQLError::VariantNotFound { enum_name, variant, line_number, column } => {
                let mut out = String::from_str("Variant '");
                out.append(variant.as_str());
                out.append("' does not exist on enum '");
                out.append(enum_name.as_str());
                out.append("': line ");
                let ls = crate::text::usize_to_string(*line_number);
                out.append(ls.as_str());
                out.append(", column ");
                let cs = crate::text::usize_to_string(*column);
                out.append(cs.as_str());
                out
            },
            ToSQLError::ConversionError { reason, line_number, column } => {
                let mut out = String::from_str("Conversion error: ");
                out.append(reason.as_str());
                let at = at_pos(*line_number, *column);
                out.append(at.as_str());
                out
            },
            ToSQLError::FunctionError { source, line_number, column } => source.message(
                *line_number,
                *column,
            ),
        }
    }
}

/// Renders a parse error against the source it came from.
pub fn pretty_error_message(error: &ParseError, code: &str) -> (r: String)
    ensures
        r@ == sp_parse_error_message(error@),
{
    let _ = code;
    error.message()
}

/// Renders a generation error against the source it came from.
pub fn pretty_to_sql_error_message(error: ToSQLError, code: &str) -> (r: String)
    ensures
        r@ == sp_to_sql_error_message(error@),
{
    let _ = code;
    error.message()
}

} // verus!
