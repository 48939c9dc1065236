//! The resolver and SQL generator: a pure recursive walk over the schema
//! that resolves symbolic references by name, evaluates the built-in
//! function calls, and emits one `CREATE TABLE` statement per model.

use vstd::prelude::*;
use crate::error::FunctionError;
use crate::error::FunctionErrorV;
use crate::error::ToSQLError;
use crate::error::ToSQLErrorV;
use crate::schema::views_of;
use crate::schema::Argument;
use crate::schema::ArgumentV;
use crate::schema::ArgumentValue;
use crate::schema::ArgumentValueV;
use crate::schema::Arguments;
use crate::schema::ArgumentsV;
use crate::schema::Enum;
use crate::schema::EnumVariant;
use crate::schema::EnumVariantV;
use crate::schema::Field;
use crate::schema::FieldV;
use crate::schema::FunctionCall;
use crate::schema::FunctionCallContext;
use crate::schema::FunctionCallContextV;
use crate::schema::FunctionCallV;
use crate::schema::Model;
use crate::schema::ModelV;
use crate::schema::Property;
use crate::schema::PropertyV;
use crate::schema::Reference;
use crate::schema::ReferenceV;
use crate::schema::Schema;
use crate::schema::SchemaV;
use crate::schema::spec_get_enum;
use crate::schema::spec_get_field;
use crate::schema::spec_get_model;
use crate::schema::spec_get_variant;
use crate::text::dec_int;
use crate::text::i64_to_string;
use crate::text::str_eq;
use crate::types::DataType;
use crate::types::DataTypeV;
use crate::value::spec_value_type;
use crate::value::Value;
use crate::value::ValueV;

verus! {

broadcast use vstd::std_specs::vec::axiom_vec_index_decreases, vstd::seq::axiom_seq_index_decreases;

// ---------------------------------------------------------------------------
// Rendering of literal values and data types.
// ---------------------------------------------------------------------------

/// How a literal renders into SQL: strings single-quoted verbatim, integers
/// decimal, reals by their canonical rendering with zero written `0.0`, and
/// booleans as `1` or `0`.
pub open spec fn sp_value_sql(v: ValueV) -> Seq<char> {
    match v {
        ValueV::StringLiteral(s) => "'"@ + s + "'"@,
        ValueV::Integer(i) => dec_int(i),
        ValueV::Real(r) => if r == "0"@ || r == "-0"@ {
            "0.0"@
        } else {
            r
        },
        ValueV::Boolean(b) => if b {
            "1"@
        } else {
            "0"@
        },
    }
}

impl Value {
    /// Renders this literal into SQL text.
    pub fn to_sql(&self) -> (r: String)
        ensures
            r@ == sp_value_sql(self@),
    {
        match self {
            Value::StringLiteral(s) => {
                let mut out = String::from_str("'");
                out.append(s.as_str());
                out.append("'");
                out
            },
            Value::Integer(i) => i64_to_string(*i),
            Value::Real(rs) => {
                if str_eq(rs.as_str(), "0") || str_eq(rs.as_str(), "-0") {
                    String::from_str("0.0")
                } else {
                    rs.clone()
                }
            },
            Value::Boolean(b) => {
                if *b {
                    String::from_str("1")
                } else {
                    String::from_str("0")
                }
            },
        }
    }
}

/// The SQL name of a base type.
pub open spec fn sp_type_name(dt: DataTypeV) -> Seq<char> {
    match dt {
        DataTypeV::String => "TEXT"@,
        DataTypeV::Enum(_) => "TEXT"@,
        DataTypeV::Integer => "INTEGER"@,
        DataTypeV::Real => "REAL"@,
        DataTypeV::Blob => "BLOB"@,
        DataTypeV::Boolean => "BOOLEAN"@,
        DataTypeV::Timestamp => "TIMESTAMP"@,
        DataTypeV::Optional(_) => ""@,
    }
}

/// How a declared type renders: the base type name with `NOT NULL`, except
/// that the optional wrapper unwraps and forces plain `NULL`.
pub open spec fn sp_type_sql(dt: DataTypeV, not_null: bool) -> Seq<char>
    decreases dt,
{
    match dt {
        DataTypeV::Optional(inner) => sp_type_sql(*inner, false),
        _ => sp_type_name(dt) + (if not_null {
            " NOT NULL"@
        } else {
            " NULL"@
        }),
    }
}

impl DataType {
    /// Renders this declared type into its SQL column-type text.
    pub fn to_sql(&self, not_null: bool) -> (r: String)
        ensures
            r@ == sp_type_sql(self@, not_null),
        decreases self,
    {
        match self {
            DataType::Optional(inner) => (**inner).to_sql(false),
            _ => {
                let mut out = match self {
                    DataType::String => String::from_str("TEXT"),
                    DataType::Enum(_) => String::from_str("TEXT"),
                    DataType::Integer => String::from_str("INTEGER"),
                    DataType::Real => String::from_str("REAL"),
                    DataType::Blob => String::from_str("BLOB"),
                    DataType::Boolean => String::from_str("BOOLEAN"),
                    DataType::Timestamp => String::from_str("TIMESTAMP"),
                    DataType::Optional(_) => String::from_str(""),
                };
                if not_null {
                    out.append(" NOT NULL");
                } else {
                    out.append(" NULL");
                }
                out
            },
        }
    }
}

impl EnumVariant {
    /// The SQL text a variant contributes: its bare name.
    pub fn to_sql(&self) -> (r: String)
        ensures
            r@ == self@.name,
    {
        self.name.clone()
    }
}

// ---------------------------------------------------------------------------
// Reference resolution.
// ---------------------------------------------------------------------------

/// Error columns point just past the dot of a dotted reference; the sum is
/// clamped at the machine limit.
pub open spec fn sat_col(x: int) -> int {
    if x > usize::MAX as int {
        usize::MAX as int
    } else {
        x
    }
}

/// Resolving `model.field`: the named model must exist, then the named
/// field on it; the result is `model(field)`.
pub open spec fn sp_field_ref_sql(s: SchemaV, r: ReferenceV) -> Result<Seq<char>, ToSQLErrorV> {
    match spec_get_model(s, r.entity) {
        Some(m) => match spec_get_field(m, r.property) {
            Some(_) => Ok(m.name + "("@ + r.property + ")"@),
            None => Err(
                ToSQLErrorV::FieldNotFound {
                    model_name: m.name,
                    field_name: r.property,
                    line_number: r.line_number,
                    column: sat_col(r.column + r.property.len() + 1),
                },
            ),
        },
        None => Err(
            ToSQLErrorV::ModelNotFound {
                model_name: r.entity,
                line_number: r.line_number,
                column: r.column,
            },
        ),
    }
}

/// Resolving `enum.variant`: the named enum must exist, then the named
/// variant on it; the result is the quoted variant name.
pub open spec fn sp_variant_ref_sql(s: SchemaV, r: ReferenceV) -> Result<Seq<char>, ToSQLErrorV> {
    match spec_get_enum(s, r.entity) {
        Some(e) => match spec_get_variant(e, r.property) {
            Some(_) => Ok("'"@ + r.property + "'"@),
            None => Err(
                ToSQLErrorV::VariantNotFound {
                    enum_name: e.name,
                    variant: r.property,
                    line_number: r.line_number,
                    column: sat_col(r.column + r.property.len() + 1),
                },
            ),
        },
        None => Err(
            ToSQLErrorV::EnumNotFound {
                enum_name: r.entity,
                line_number: r.line_number,
                column: r.column,
            },
        ),
    }
}

impl Model {
    /// The SQL text of a reference into this model, or the error naming the
    /// missing field.
    pub fn field_to_sql(&self, field_name: &str, line_number: usize, column: usize) -> (r: Result<
        String,
        ToSQLError,
    >)
        ensures
            ({
                let sp = match spec_get_field(self@, field_name@) {
                    Some(_) => Ok::<Seq<char>, ToSQLErrorV>(
                        self@.name + "("@ + field_name@ + ")"@,
                    ),
                    None => Err(
                        ToSQLErrorV::FieldNotFound {
                            model_name: self@.name,
                            field_name: field_name@,
                            line_number: line_number as int,
                            column: sat_col(column + field_name@.len() + 1),
                        },
                    ),
                };
                match sp {
                    Ok(sq) => r matches Ok(st) && st@ == sq,
                    Err(e) => r matches Err(x) && x@ == e,
                }
            }),
    {
        match self.get_field(field_name) {
            Some(_) => {
                let mut out = self.name.clone();
                out.append("(");
                out.append(field_name);
                out.append(")");
                Ok(out)
            },
            None => {
                let flen = field_name.unicode_len();
                let wide: u128 = column as u128 + flen as u128 + 1;
                let col2: usize = if wide > usize::MAX as u128 {
                    usize::MAX
                } else {
                    wide as usize
                };
                Err(
                    ToSQLError::FieldNotFound {
                        model_name: self.name.clone(),
                        field_name: String::from_str(field_name),
                        line_number,
                        column: col2,
                    },
                )
            },
        }
    }
}

impl Enum {
    /// The SQL text of a variant reference into this enum, or the error
    /// naming the missing variant.
    pub fn variant_to_sql(&self, variant: &str, line_number: usize, column: usize) -> (r: Result<
        String,
        ToSQLError,
    >)
        ensures
            ({
                let sp = match spec_get_variant(self@, variant@) {
                    Some(_) => Ok::<Seq<char>, ToSQLErrorV>("'"@ + variant@ + "'"@),
                    None => Err(
                        ToSQLErrorV::VariantNotFound {
                            enum_name: self@.name,
                            variant: variant@,
                            line_number: line_number as int,
                            column: sat_col(column + variant@.len() + 1),
                        },
                    ),
                };
                match sp {
                    Ok(sq) => r matches Ok(st) && st@ == sq,
                    Err(e) => r matches Err(x) && x@ == e,
                }
            }),
    {
        match self.get_variant(variant) {
            Some(_) => {
                let mut out = String::from_str("'");
                out.append(variant);
                out.append("'");
                Ok(out)
            },
            None => {
                let vlen = variant.unicode_len();
                let wide: u128 = column as u128 + vlen as u128 + 1;
                let col2: usize = if wide > usize::MAX as u128 {
                    usize::MAX
                } else {
                    wide as usize
                };
                Err(
                    ToSQLError::VariantNotFound {
                        enum_name: self.name.clone(),
                        variant: String::from_str(variant),
                        line_number,
                        column: col2,
                    },
                )
            },
        }
    }
}

impl Reference {
    /// Resolves this reference as `model.field` against the whole schema.
    pub fn field_reference_to_sql(&self, schema: &Schema) -> (r: Result<String, ToSQLError>)
        ensures
            match sp_field_ref_sql(schema@, self@) {
                Ok(sq) => r matches Ok(st) && st@ == sq,
                Err(e) => r matches Err(x) && x@ == e,
            },
    {
        match schema.get_model(self.entity.as_str()) {
            Some(model) => model.field_to_sql(self.property.as_str(), self.line_number, self.column),
            None => Err(
                ToSQLError::ModelNotFound {
                    model_name: self.entity.clone(),
                    line_number: self.line_number,
                    column: self.column,
                },
            ),
        }
    }

    /// Resolves this reference as `enum.variant` against the whole schema.
    pub fn variant_reference_to_sql(&self, schema: &Schema) -> (r: Result<String, ToSQLError>)
        ensures
            match sp_variant_ref_sql(schema@, self@) {
                Ok(sq) => r matches Ok(st) && st@ == sq,
                Err(e) => r matches Err(x) && x@ == e,
            },
    {
        match schema.get_enum(self.entity.as_str()) {
            Some(e) => e.variant_to_sql(self.property.as_str(), self.line_number, self.column),
            None => Err(
                ToSQLError::EnumNotFound {
                    enum_name: self.entity.clone(),
                    line_number: self.line_number,
                    column: self.column,
                },
            ),
        }
    }
}

// ---------------------------------------------------------------------------
// Arity of the built-ins.
// ---------------------------------------------------------------------------

/// Every built-in takes exactly one argument: none is `MissingArgument`,
/// more than one is `ExpectsExactlyOneArgument`.
pub open spec fn sp_single_arg(func: Seq<char>, args: ArgumentsV) -> Result<
    ArgumentV,
    ToSQLErrorV,
> {
    if args.list.len() == 1 {
        Ok(args.list[0])
    } else {
        Err(
            ToSQLErrorV::FunctionError {
                source: if args.list.len() == 0 {
                    FunctionErrorV::MissingArgument
                } else {
                    FunctionErrorV::ExpectsExactlyOneArgument(func)
                },
                line_number: args.line_number,
                column: args.column,
            },
        )
    }
}

fn get_single_argument<'a>(func: &str, arguments: &'a Arguments) -> (r: Result<
    &'a Argument,
    ToSQLError,
>)
    ensures
        match sp_single_arg(func@, arguments@) {
            Ok(av) => r matches Ok(a) && a@ == av,
            Err(e) => r matches Err(x) && x@ == e,
        },
{
    if arguments.list.len() == 1 {
        Ok(&arguments.list[0])
    } else {
        Err(
            ToSQLError::FunctionError {
                source: if arguments.list.len() == 0 {
                    FunctionError::MissingArgument
                } else {
                    FunctionError::ExpectsExactlyOneArgument(String::from_str(func))
                },
                line_number: arguments.line_number,
                column: arguments.column,
            },
        )
    }
}

// ---------------------------------------------------------------------------
// The built-in function calls.
// ---------------------------------------------------------------------------

/// A bound check: `min` keeps the column at least its bound, `max` at most.
/// The checked expression is the column's length for string fields and the
/// bare column for integer and real fields; the bound is the argument's
/// literal or the result of a nested call.
pub open spec fn sp_check_value(
    s: SchemaV,
    ctx: FunctionCallContextV,
    args: ArgumentsV,
    name: Seq<char>,
    op: Seq<char>,
) -> Result<Seq<char>, ToSQLErrorV>
    decreases args, 0int,
    via sp_check_value_decreases
{
    match sp_single_arg(name, args) {
        Err(e) => Err(e),
        Ok(arg) => match arg.value {
            ArgumentValueV::Value(v) => match ctx.property_data_type.data_type {
                DataTypeV::String => Ok(
                    "CHECK(LENGTH("@ + ctx.property_name + ") "@ + op + " "@ + sp_value_sql(v)
                        + ")"@,
                ),
                DataTypeV::Integer => Ok(
                    "CHECK("@ + ctx.property_name + " "@ + op + " "@ + sp_value_sql(v) + ")"@,
                ),
                DataTypeV::Real => Ok(
                    "CHECK("@ + ctx.property_name + " "@ + op + " "@ + sp_value_sql(v) + ")"@,
                ),
                _ => Err(
                    ToSQLErrorV::FunctionError {
                        source: FunctionErrorV::InvalidArgument(name + " value must be a value"@),
                        line_number: arg.line_number,
                        column: arg.column,
                    },
                ),
            },
            ArgumentValueV::FunctionCall(g) => match sp_function_call_sql(s, *g) {
                Ok(val) => Ok("CHECK("@ + ctx.property_name + " "@ + op + " "@ + val + ")"@),
                Err(e) => Err(e),
            },
            _ => Err(
                ToSQLErrorV::FunctionError {
                    source: FunctionErrorV::InvalidArgument(name + " value must be a value"@),
                    line_number: arg.line_number,
                    column: arg.column,
                },
            ),
        },
    }
}

#[via_fn]
proof fn sp_check_value_decreases(
    s: SchemaV,
    ctx: FunctionCallContextV,
    args: ArgumentsV,
    name: Seq<char>,
    op: Seq<char>,
) {
    if args.list.len() == 1 {
        let arg = args.list[0];
        assert(decreases_to!(args => args.list));
        assert(decreases_to!(args.list => args.list[0]));
        assert(decreases_to!(arg => arg.value));
        if let ArgumentValueV::FunctionCall(g) = arg.value {
            assert(decreases_to!(arg.value => *g));
        }
    }
}

/// A default clause: the argument's literal must match the field's declared
/// type; a nested call supplies its result; a variant reference must come
/// from the field's own enum.
pub open spec fn sp_default(
    s: SchemaV,
    ctx: FunctionCallContextV,
    args: ArgumentsV,
    name: Seq<char>,
) -> Result<Seq<char>, ToSQLErrorV>
    decreases args, 0int,
    via sp_default_decreases
{
    match sp_single_arg(name, args) {
        Err(e) => Err(e),
        Ok(arg) => match arg.value {
            ArgumentValueV::Value(v) => {
                if spec_value_type(v) == ctx.property_data_type.data_type {
                    Ok("DEFAULT "@ + sp_value_sql(v))
                } else {
                    Err(
                        ToSQLErrorV::FunctionError {
                            source: FunctionErrorV::InvalidArgument(
                                name + " value must be a value"@,
                            ),
                            line_number: arg.line_number,
                            column: arg.column,
                        },
                    )
                }
            },
            ArgumentValueV::FunctionCall(g) => match sp_function_call_sql(s, *g) {
                Ok(val) => Ok("DEFAULT "@ + val),
                Err(e) => Err(e),
            },
            ArgumentValueV::Reference(r) => {
                if (ctx.property_data_type.data_type matches DataTypeV::Enum(ename) && r.entity
                    != ename) {
                    Err(
                        ToSQLErrorV::ConversionError {
                            reason: "expected a variant of enum "@
                                + ctx.property_data_type.data_type->Enum_0 + ", got "@ + r.entity,
                            line_number: r.line_number,
                            column: r.column,
                        },
                    )
                } else {
                    match sp_variant_ref_sql(s, r) {
                        Ok(v) => Ok("DEFAULT "@ + v),
                        Err(e) => Err(e),
                    }
                }
            },
            _ => Err(
                ToSQLErrorV::FunctionError {
                    source: FunctionErrorV::InvalidArgument(name + " value must be a value"@),
                    line_number: arg.line_number,
                    column: arg.column,
                },
            ),
        },
    }
}

#[via_fn]
proof fn sp_default_decreases(
    s: SchemaV,
    ctx: FunctionCallContextV,
    args: ArgumentsV,
    name: Seq<char>,
) {
    if args.list.len() == 1 {
        let arg = args.list[0];
        assert(decreases_to!(args => args.list));
        assert(decreases_to!(args.list => args.list[0]));
        assert(decreases_to!(arg => arg.value));
        if let ArgumentValueV::FunctionCall(g) = arg.value {
            assert(decreases_to!(arg.value => *g));
        }
    }
}

/// A table-level foreign-key clause for the owning column; the argument
/// must be a `model.field` reference.
pub open spec fn sp_foreign_key(
    s: SchemaV,
    ctx: FunctionCallContextV,
    args: ArgumentsV,
    name: Seq<char>,
) -> Result<Seq<char>, ToSQLErrorV> {
    match sp_single_arg(name, args) {
        Err(e) => Err(e),
        Ok(arg) => match arg.value {
            ArgumentValueV::Reference(r) => match sp_field_ref_sql(s, r) {
                Ok(refsql) => Ok(
                    "    FOREIGN KEY ("@ + ctx.property_name + ") REFERENCES "@ + refsql,
                ),
                Err(e) => Err(e),
            },
            _ => Err(
                ToSQLErrorV::FunctionError {
                    source: FunctionErrorV::InvalidArgument(
                        name + " value must be a reference"@,
                    ),
                    line_number: arg.line_number,
                    column: arg.column,
                },
            ),
        },
    }
}

/// An inline references clause; the argument must be a `model.field`
/// reference.
pub open spec fn sp_references(s: SchemaV, args: ArgumentsV, name: Seq<char>) -> Result<
    Seq<char>,
    ToSQLErrorV,
> {
    match sp_single_arg(name, args) {
        Err(e) => Err(e),
        Ok(arg) => match arg.value {
            ArgumentValueV::Reference(r) => match sp_field_ref_sql(s, r) {
                Ok(refsql) => Ok("REFERENCES "@ + refsql),
                Err(e) => Err(e),
            },
            _ => Err(
                ToSQLErrorV::FunctionError {
                    source: FunctionErrorV::InvalidArgument(
                        name + " value must be a reference"@,
                    ),
                    line_number: arg.line_number,
                    column: arg.column,
                },
            ),
        },
    }
}

/// Dispatch over the closed set of built-ins: `now` yields the current
/// timestamp literal, `min`, `max`, `references` and `default` translate
/// their argument, and any other name is undefined. A `foreign_key` call
/// is taken out earlier, at the field level.
pub open spec fn sp_function_call_sql(s: SchemaV, f: FunctionCallV) -> Result<
    Seq<char>,
    ToSQLErrorV,
>
    decreases f, 1int,
{
    if f.name == "now"@ {
        Ok("CURRENT_TIMESTAMP"@)
    } else if f.name == "min"@ {
        sp_check_value(s, f.context, f.arguments, f.name, ">="@)
    } else if f.name == "max"@ {
        sp_check_value(s, f.context, f.arguments, f.name, "<="@)
    } else if f.name == "references"@ {
        sp_references(s, f.arguments, f.name)
    } else if f.name == "default"@ {
        sp_default(s, f.context, f.arguments, f.name)
    } else {
        Err(
            ToSQLErrorV::FunctionError {
                source: FunctionErrorV::UndefinedFunction(f.name),
                line_number: f.line_number,
                column: f.column,
            },
        )
    }
}

fn check_value(
    schema: &Schema,
    context: &FunctionCallContext,
    arguments: &Arguments,
    check_type: &str,
    operator: &str,
) -> (r: Result<String, ToSQLError>)
    ensures
        match sp_check_value(schema@, context@, arguments@, check_type@, operator@) {
            Ok(sq) => r matches Ok(st) && st@ == sq,
            Err(e) => r matches Err(x) && x@ == e,
        },
    decreases *arguments, 0int,
{
    if arguments.list.len() != 1 {
        let src = if arguments.list.len() == 0 {
            FunctionError::MissingArgument
        } else {
            FunctionError::ExpectsExactlyOneArgument(String::from_str(check_type))
        };
        return Err(
            ToSQLError::FunctionError {
                source: src,
                line_number: arguments.line_number,
                column: arguments.column,
            },
        );
    }
    let arg = &arguments.list[0];
    match &arg.value {
        ArgumentValue::Value(v) => {
            let is_str = matches!(&context.property_data_type.data_type, DataType::String);
            let is_num = matches!(
                &context.property_data_type.data_type,
                DataType::Integer | DataType::Real
            );
            if is_str {
                let mut out = String::from_str("CHECK(LENGTH(");
                out.append(context.property_name.as_str());
                out.append(") ");
                out.append(operator);
                out.append(" ");
                let vs = v.to_sql();
                out.append(vs.as_str());
                out.append(")");
                Ok(out)
            } else if is_num {
                let mut out = String::from_str("CHECK(");
                out.append(context.property_name.as_str());
                out.append(" ");
                out.append(operator);
                out.append(" ");
                let vs = v.to_sql();
                out.append(vs.as_str());
                out.append(")");
                Ok(out)
            } else {
                let mut msg = String::from_str(check_type);
                msg.append(" value must be a value");
                Err(
                    ToSQLError::FunctionError {
                        source: FunctionError::InvalidArgument(msg),
                        line_number: arg.line_number,
                        column: arg.column,
                    },
                )
            }
        },
        ArgumentValue::FunctionCall(g) => {
            proof {
                assert(decreases_to!(*arguments => arguments.list));
                assert(decreases_to!(arguments.list => arguments.list@[0]));
                assert(decreases_to!(arguments.list@[0] => arguments.list@[0].value));
                assert(decreases_to!(arguments.list@[0].value => *g));
            }
            match g.to_sql(schema) {
                Ok(val) => {
                    let mut out = String::from_str("CHECK(");
                    out.append(context.property_name.as_str());
                    out.append(" ");
                    out.append(operator);
                    out.append(" ");
                    out.append(val.as_str());
                    out.append(")");
                    Ok(out)
                },
                Err(e) => Err(e),
            }
        },
        _ => {
            let mut msg = String::from_str(check_type);
            msg.append(" value must be a value");
            Err(
                ToSQLError::FunctionError {
                    source: FunctionError::InvalidArgument(msg),
                    line_number: arg.line_number,
                    column: arg.column,
                },
            )
        },
    }
}

/// The `min` bound check for the field the call stands on.
pub fn min(schema: &Schema, context: &FunctionCallContext, arguments: &Arguments) -> (r: Result<
    String,
    ToSQLError,
>)
    ensures
        match sp_check_value(schema@, context@, arguments@, "min"@, ">="@) {
            Ok(sq) => r matches Ok(st) && st@ == sq,
            Err(e) => r matches Err(x) && x@ == e,
        },
    decreases *arguments, 1int,
{
    check_value(schema, context, arguments, "min", ">=")
}

/// The `max` bound check for the field the call stands on.
pub fn max(schema: &Schema, context: &FunctionCallContext, arguments: &Arguments) -> (r: Result<
    String,
    ToSQLError,
>)
    ensures
        match sp_check_value(schema@, context@, arguments@, "max"@, "<="@) {
            Ok(sq) => r matches Ok(st) && st@ == sq,
            Err(e) => r matches Err(x) && x@ == e,
        },
    decreases *arguments, 1int,
{
    check_value(schema, context, arguments, "max", "<=")
}

/// The table-level foreign-key clause for the owning column.
pub fn foreign_key(
    schema: &Schema,
    arguments: &Arguments,
    context: &FunctionCallContext,
) -> (r: Result<String, ToSQLError>)
    ensures
        match sp_foreign_key(schema@, context@, arguments@, "foreign_key"@) {
            Ok(sq) => r matches Ok(st) && st@ == sq,
            Err(e) => r matches Err(x) && x@ == e,
        },
{
    let arg = match get_single_argument("foreign_key", arguments) {
        Ok(a) => a,
        Err(e) => {
            return Err(e);
        },
    };
    match &arg.value {
        ArgumentValue::Reference(r) => match r.field_reference_to_sql(schema) {
            Ok(refsql) => {
                let mut out = String::from_str("    FOREIGN KEY (");
                out.append(context.property_name.as_str());
                out.append(") REFERENCES ");
                out.append(refsql.as_str());
                Ok(out)
            },
            Err(e) => Err(e),
        },
        _ => {
            let mut msg = String::from_str("foreign_key");
            msg.append(" value must be a reference");
            Err(
                ToSQLError::FunctionError {
                    source: FunctionError::InvalidArgument(msg),
                    line_number: arg.line_number,
                    column: arg.column,
                },
            )
        },
    }
}

/// The inline references clause.
pub fn references(
    schema: &Schema,
    arguments: &Arguments,
    context: &FunctionCallContext,
) -> (r: Result<String, ToSQLError>)
    ensures
        match sp_references(schema@, arguments@, "references"@) {
            Ok(sq) => r matches Ok(st) && st@ == sq,
            Err(e) => r matches Err(x) && x@ == e,
        },
{
    let _ = context;
    let arg = match get_single_argument("references", arguments) {
        Ok(a) => a,
        Err(e) => {
            return Err(e);
        },
    };
    match &arg.value {
        ArgumentValue::Reference(r) => match r.field_reference_to_sql(schema) {
            Ok(refsql) => {
                let mut out = String::from_str("REFERENCES ");
                out.append(refsql.as_str());
                Ok(out)
            },
            Err(e) => Err(e),
        },
        _ => {
            let mut msg = String::from_str("references");
            msg.append(" value must be a reference");
            Err(
                ToSQLError::FunctionError {
                    source: FunctionError::InvalidArgument(msg),
                    line_number: arg.line_number,
                    column: arg.column,
                },
            )
        },
    }
}

/// The default clause for the field the call stands on.
pub fn default(
    schema: &Schema,
    arguments: &Arguments,
    context: &FunctionCallContext,
) -> (r: Result<String, ToSQLError>)
    ensures
        match sp_default(schema@, context@, arguments@, "default"@) {
            Ok(sq) => r matches Ok(st) && st@ == sq,
            Err(e) => r matches Err(x) && x@ == e,
        },
    decreases *arguments, 1int,
{
    if arguments.list.len() != 1 {
        let src = if arguments.list.len() == 0 {
            FunctionError::MissingArgument
        } else {
            FunctionError::ExpectsExactlyOneArgument(String::from_str("default"))
        };
        return Err(
            ToSQLError::FunctionError {
                source: src,
                line_number: arguments.line_number,
                column: arguments.column,
            },
        );
    }
    let arg = &arguments.list[0];
    match &arg.value {
        ArgumentValue::Value(v) => {
            let vt = v.get_type();
            if vt.same_type(&context.property_data_type.data_type) {
                let mut out = String::from_str("DEFAULT ");
                let vs = v.to_sql();
                out.append(vs.as_str());
                Ok(out)
            } else {
                let mut msg = String::from_str("default");
                msg.append(" value must be a value");
                Err(
                    ToSQLError::FunctionError {
                        source: FunctionError::InvalidArgument(msg),
                        line_number: arg.line_number,
                        column: arg.column,
                    },
                )
            }
        },
        ArgumentValue::FunctionCall(g) => {
            proof {
                assert(decreases_to!(*arguments => arguments.list));
                assert(decreases_to!(arguments.list => arguments.list@[0]));
                assert(decreases_to!(arguments.list@[0] => arguments.list@[0].value));
                assert(decreases_to!(arguments.list@[0].value => *g));
            }
            match g.to_sql(schema) {
                Ok(val) => {
                    let mut out = String::from_str("DEFAULT ");
                    out.append(val.as_str());
                    Ok(out)
                },
                Err(e) => Err(e),
            }
        },
        ArgumentValue::Reference(r) => {
            if let DataType::Enum(ename) = &context.property_data_type.data_type {
                if !str_eq(r.entity.as_str(), ename.as_str()) {
                    let mut reason = String::from_str("expected a variant of enum ");
                    reason.append(ename.as_str());
                    reason.append(", got ");
                    reason.append(r.entity.as_str());
                    return Err(
                        ToSQLError::ConversionError {
                            reason,
                            line_number: r.line_number,
                            column: r.column,
                        },
                    );
                }
            }
            match r.variant_reference_to_sql(schema) {
                Ok(v) => {
                    let mut out = String::from_str("DEFAULT ");
                    out.append(v.as_str());
                    Ok(out)
                },
                Err(e) => Err(e),
            }
        },
        _ => {
            let mut msg = String::from_str("default");
            msg.append(" value must be a value");
            Err(
                ToSQLError::FunctionError {
                    source: FunctionError::InvalidArgument(msg),
                    line_number: arg.line_number,
                    column: arg.column,
                },
            )
        },
    }
}

/// What an argument value contributes on its own: an identifier verbatim, a
/// nested call's result, a literal's rendering; a bare reference has no
/// inline rendering and is reported as an unknown reference.
pub open spec fn sp_argument_value_sql(s: SchemaV, v: ArgumentValueV) -> Result<
    Seq<char>,
    ToSQLErrorV,
> {
    match v {
        ArgumentValueV::Identifier(id) => Ok(id),
        ArgumentValueV::FunctionCall(g) => sp_function_call_sql(s, *g),
        ArgumentValueV::Value(val) => Ok(sp_value_sql(val)),
        ArgumentValueV::Reference(r) => Err(
            ToSQLErrorV::UnknownReference {
                entity_name: r.entity,
                line_number: r.line_number,
                column: r.column,
            },
        ),
    }
}

impl ArgumentValue {
    /// Translates this argument value on its own.
    pub fn to_sql(&self, schema: &Schema) -> (r: Result<String, ToSQLError>)
        ensures
            match sp_argument_value_sql(schema@, self@) {
                Ok(sq) => r matches Ok(st) && st@ == sq,
                Err(e) => r matches Err(x) && x@ == e,
            },
    {
        match self {
            ArgumentValue::Identifier(id) => Ok(id.clone()),
            ArgumentValue::FunctionCall(g) => g.to_sql(schema),
            ArgumentValue::Value(val) => Ok(val.to_sql()),
            ArgumentValue::Reference(r) => Err(
                ToSQLError::UnknownReference {
                    entity_name: r.entity.clone(),
                    line_number: r.line_number,
                    column: r.column,
                },
            ),
        }
    }
}

impl Argument {
    /// Translates this argument on its own.
    pub fn to_sql(&self, schema: &Schema) -> (r: Result<String, ToSQLError>)
        ensures
            match sp_argument_value_sql(schema@, self@.value) {
                Ok(sq) => r matches Ok(st) && st@ == sq,
                Err(e) => r matches Err(x) && x@ == e,
            },
    {
        self.value.to_sql(schema)
    }
}

/// The translations of each argument in order, stopping at the first error.
pub open spec fn sp_arguments_fold(
    s: SchemaV,
    lst: Seq<ArgumentV>,
    i: int,
    acc: Seq<Seq<char>>,
) -> Result<Seq<Seq<char>>, ToSQLErrorV>
    decreases lst.len() - i,
{
    if i < 0 || i >= lst.len() {
        Ok(acc)
    } else {
        match sp_argument_value_sql(s, lst[i].value) {
            Ok(x) => sp_arguments_fold(s, lst, i + 1, acc.push(x)),
            Err(e) => Err(e),
        }
    }
}

impl Arguments {
    /// Translates each argument in order.
    pub fn to_sql(&self, schema: &Schema) -> (r: Result<Vec<String>, ToSQLError>)
        ensures
            match sp_arguments_fold(schema@, self@.list, 0, Seq::empty()) {
                Ok(xs) => r matches Ok(v) && views_of(v@) == xs,
                Err(e) => r matches Err(x) && x@ == e,
            },
    {
        broadcast use crate::schema::lemma_views_of_push;

        let ghost lst = self@.list;
        let mut out: Vec<String> = Vec::new();
        let mut i: usize = 0;
        proof {
            assert(views_of(out@) =~= Seq::<Seq<char>>::empty());
            crate::schema::lemma_args_list_view(self.list, 0);
            assert(self.list@.skip(0) =~= self.list@);
        }
        while i < self.list.len()
            invariant
                i <= self.list@.len(),
                lst == self@.list,
                lst == views_of(self.list@),
                sp_arguments_fold(schema@, lst, 0, Seq::empty()) == sp_arguments_fold(
                    schema@,
                    lst,
                    i as int,
                    views_of(out@),
                ),
            decreases self.list@.len() - i,
        {
            let a = &self.list[i];
            proof {
                assert(lst[i as int] == a@);
            }
            match a.to_sql(schema) {
                Ok(x) => {
                    let ghost o0 = views_of(out@);
                    let ghost xv = x@;
                    out.push(x);
                    proof {
                        assert(views_of(out@) =~= o0.push(xv));
                    }
                },
                Err(e) => {
                    return Err(e);
                },
            }
            i = i + 1;
        }
        Ok(out)
    }
}

impl FunctionCall {
    /// Translates this call by its name over the closed set of built-ins.
    pub fn to_sql(&self, schema: &Schema) -> (r: Result<String, ToSQLError>)
        ensures
            match sp_function_call_sql(schema@, self@) {
                Ok(sq) => r matches Ok(st) && st@ == sq,
                Err(e) => r matches Err(x) && x@ == e,
            },
        decreases *self, 2int,
    {
        if str_eq(self.name.as_str(), "now") {
            Ok(String::from_str("CURRENT_TIMESTAMP"))
        } else if str_eq(self.name.as_str(), "min") {
            min(schema, &self.context, &self.arguments)
        } else if str_eq(self.name.as_str(), "max") {
            max(schema, &self.context, &self.arguments)
        } else if str_eq(self.name.as_str(), "references") {
            references(schema, &self.arguments, &self.context)
        } else if str_eq(self.name.as_str(), "default") {
            default(schema, &self.arguments, &self.context)
        } else {
            Err(
                ToSQLError::FunctionError {
                    source: FunctionError::UndefinedFunction(self.name.clone()),
                    line_number: self.line_number,
                    column: self.column,
                },
            )
        }
    }
}


impl Property {
    /// Translates a flag property directly and a function-call property by
    /// its built-in.
    pub fn to_sql(&self, schema: &Schema) -> (r: Result<String, ToSQLError>)
        ensures
            match sp_property_sql(schema@, self@) {
                Ok(sq) => r matches Ok(st) && st@ == sq,
                Err(e) => r matches Err(x) && x@ == e,
            },
    {
        match self {
            Property::PrimaryKey => Ok(String::from_str("PRIMARY KEY")),
            Property::AutoIncrement => Ok(String::from_str("AUTOINCREMENT")),
            Property::Unique => Ok(String::from_str("UNIQUE")),
            Property::FunctionCall(f) => f.to_sql(schema),
        }
    }
}

/// What a property appends to its column clause.
pub open spec fn sp_property_sql(s: SchemaV, p: PropertyV) -> Result<Seq<char>, ToSQLErrorV> {
    match p {
        PropertyV::PrimaryKey => Ok("PRIMARY KEY"@),
        PropertyV::AutoIncrement => Ok("AUTOINCREMENT"@),
        PropertyV::Unique => Ok("UNIQUE"@),
        PropertyV::FunctionCall(f) => sp_function_call_sql(s, f),
    }
}

// ---------------------------------------------------------------------------
// Columns, models, and the whole schema.
// ---------------------------------------------------------------------------

/// The quoted variant names of an enum, comma-separated.
pub open spec fn sp_variant_list(vs: Seq<EnumVariantV>, i: int, acc: Seq<char>) -> Seq<char>
    decreases vs.len() - i,
{
    if i < 0 || i >= vs.len() {
        acc
    } else {
        sp_variant_list(
            vs,
            i + 1,
            acc + (if i == 0 {
                Seq::<char>::empty()
            } else {
                ", "@
            }) + "'"@ + vs[i].name + "'"@,
        )
    }
}

/// The membership check an enum-typed column carries, sourced from the
/// referenced enum; a missing enum is an error at the field's position.
pub open spec fn sp_enum_check(s: SchemaV, fld: FieldV) -> Result<Seq<char>, ToSQLErrorV> {
    match fld.data_type.data_type {
        DataTypeV::Enum(ename) => match spec_get_enum(s, ename) {
            Some(e) => Ok(
                " CHECK("@ + fld.name + " IN ("@ + sp_variant_list(
                    e.variants,
                    0,
                    Seq::empty(),
                ) + "))"@,
            ),
            None => Err(
                ToSQLErrorV::EnumNotFound {
                    enum_name: ename,
                    line_number: fld.line_number,
                    column: fld.column,
                },
            ),
        },
        _ => Ok(Seq::empty()),
    }
}

/// The fold over a field's properties: a `foreign_key` call joins the
/// table-level clauses, every other property extends the column clause.
pub open spec fn sp_field_props_fold(
    s: SchemaV,
    fld: FieldV,
    i: int,
    col: Seq<char>,
    fks: Seq<Seq<char>>,
) -> Result<(Seq<char>, Seq<Seq<char>>), ToSQLErrorV>
    decreases fld.properties.len() - i,
{
    if i < 0 || i >= fld.properties.len() {
        Ok((col, fks))
    } else {
        let p = fld.properties[i];
        if p matches PropertyV::FunctionCall(f) && f.name == "foreign_key"@ {
            match sp_foreign_key(s, (p->FunctionCall_0).context, (p->FunctionCall_0).arguments, (
            p->FunctionCall_0).name) {
                Ok(fk) => sp_field_props_fold(s, fld, i + 1, col, fks.push(fk)),
                Err(e) => Err(e),
            }
        } else {
            match sp_property_sql(s, p) {
                Ok(ps) => sp_field_props_fold(s, fld, i + 1, col + " "@ + ps, fks),
                Err(e) => Err(e),
            }
        }
    }
}

/// One field's column clause and its table-level clauses.
pub open spec fn sp_field_sql(s: SchemaV, fld: FieldV) -> Result<
    (Seq<char>, Seq<Seq<char>>),
    ToSQLErrorV,
> {
    match sp_enum_check(s, fld) {
        Err(e) => Err(e),
        Ok(chk) => sp_field_props_fold(
            s,
            fld,
            0,
            "    "@ + fld.name + " "@ + sp_type_sql(fld.data_type.data_type, true) + chk,
            Seq::empty(),
        ),
    }
}

/// The fold over a model's fields.
pub open spec fn sp_model_fold(
    s: SchemaV,
    m: ModelV,
    i: int,
    cols: Seq<Seq<char>>,
    fks: Seq<Seq<char>>,
) -> Result<(Seq<Seq<char>>, Seq<Seq<char>>), ToSQLErrorV>
    decreases m.fields.len() - i,
{
    if i < 0 || i >= m.fields.len() {
        Ok((cols, fks))
    } else {
        match sp_field_sql(s, m.fields[i]) {
            Err(e) => Err(e),
            Ok(cf) => sp_model_fold(s, m, i + 1, cols.push(cf.0), fks + cf.1),
        }
    }
}

/// Comma-joined clause lists.
pub open spec fn sp_join(parts: Seq<Seq<char>>, i: int, sep: Seq<char>, acc: Seq<char>) -> Seq<
    char,
>
    decreases parts.len() - i,
{
    if i < 0 || i >= parts.len() {
        acc
    } else {
        sp_join(
            parts,
            i + 1,
            sep,
            acc + (if i == 0 {
                Seq::<char>::empty()
            } else {
                sep
            }) + parts[i],
        )
    }
}

/// One model's statement: its column clauses in declaration order, then its
/// table-level clauses, wrapped as a `CREATE TABLE`.
pub open spec fn sp_model_sql(s: SchemaV, m: ModelV) -> Result<Seq<char>, ToSQLErrorV> {
    match sp_model_fold(s, m, 0, Seq::empty(), Seq::empty()) {
        Err(e) => Err(e),
        Ok(cf) => Ok(
            "CREATE TABLE IF NOT EXISTS "@ + m.name + " (\n"@ + sp_join(
                cf.0 + cf.1,
                0,
                ",\n"@,
                Seq::empty(),
            ) + "\n);"@,
        ),
    }
}

/// The fold over a schema's models.
pub open spec fn sp_schema_fold(s: SchemaV, i: int, acc: Seq<Seq<char>>) -> Result<
    Seq<Seq<char>>,
    ToSQLErrorV,
>
    decreases s.models.len() - i,
{
    if i < 0 || i >= s.models.len() {
        Ok(acc)
    } else {
        match sp_model_sql(s, s.models[i]) {
            Err(e) => Err(e),
            Ok(stmt) => sp_schema_fold(s, i + 1, acc.push(stmt)),
        }
    }
}

/// One statement per model, in declaration order, or the first error.
pub open spec fn sp_schema_sql(s: SchemaV) -> Result<Seq<Seq<char>>, ToSQLErrorV> {
    sp_schema_fold(s, 0, Seq::empty())
}

impl Schema {
    /// Emits one `CREATE TABLE` statement per model, in declaration order,
    /// resolving every symbolic reference against this schema.
    pub fn to_sql(&self) -> (r: Result<Vec<String>, ToSQLError>)
        ensures
            match sp_schema_sql(self@) {
                Ok(stmts) => r matches Ok(v) && views_of(v@) == stmts,
                Err(e) => r matches Err(x) && x@ == e,
            },
    {
        broadcast use crate::schema::lemma_views_of_push;

        let mut out: Vec<String> = Vec::new();
        let mut mi: usize = 0;
        proof {
            assert(views_of(out@) =~= Seq::<Seq<char>>::empty());
        }
        while mi < self.models.len()
            invariant
                mi <= self.models@.len(),
                sp_schema_sql(self@) == sp_schema_fold(self@, mi as int, views_of(out@)),
            decreases self.models@.len() - mi,
        {
            let m = &self.models[mi];
            proof {
                assert(self@.models[mi as int] == m@);
            }
            match self.model_to_sql(m) {
                Ok(stmt) => {
                    let ghost o0 = views_of(out@);
                    let ghost sv = stmt@;
                    out.push(stmt);
                    proof {
                        assert(views_of(out@) =~= o0.push(sv));
                    }
                },
                Err(e) => {
                    return Err(e);
                },
            }
            mi = mi + 1;
        }
        Ok(out)
    }

    fn model_to_sql(&self, m: &Model) -> (r: Result<String, ToSQLError>)
        ensures
            match sp_model_sql(self@, m@) {
                Ok(sq) => r matches Ok(st) && st@ == sq,
                Err(e) => r matches Err(x) && x@ == e,
            },
    {
        broadcast use crate::schema::lemma_views_of_push;

        let mut cols: Vec<String> = Vec::new();
        let mut fks: Vec<String> = Vec::new();
        let mut fi: usize = 0;
        proof {
            assert(views_of(cols@) =~= Seq::<Seq<char>>::empty());
            assert(views_of(fks@) =~= Seq::<Seq<char>>::empty());
        }
        while fi < m.fields.len()
            invariant
                fi <= m.fields@.len(),
                sp_model_fold(self@, m@, 0, Seq::empty(), Seq::empty()) == sp_model_fold(
                    self@,
                    m@,
                    fi as int,
                    views_of(cols@),
                    views_of(fks@),
                ),
            decreases m.fields@.len() - fi,
        {
            let fld = &m.fields[fi];
            proof {
                assert(m@.fields[fi as int] == fld@);
            }
            match self.field_to_sql_parts(fld, &mut fks) {
                Ok(col) => {
                    let ghost c0 = views_of(cols@);
                    let ghost cv = col@;
                    cols.push(col);
                    proof {
                        assert(views_of(cols@) =~= c0.push(cv));
                    }
                },
                Err(e) => {
                    return Err(e);
                },
            }
            fi = fi + 1;
        }
        let mut stmt = String::from_str("CREATE TABLE IF NOT EXISTS ");
        stmt.append(m.name.as_str());
        stmt.append(" (\n");
        let ghost colsv = views_of(cols@);
        let ghost fksv = views_of(fks@);
        let mut parts = cols;
        let mut fkv = fks;
        parts.append(&mut fkv);
        proof {
            assert(views_of(parts@) =~= colsv + fksv);
        }
        // join the clauses
        let mut joined = String::new();
        let mut pi: usize = 0;
        while pi < parts.len()
            invariant
                pi <= parts@.len(),
                views_of(parts@) == colsv + fksv,
                sp_join(views_of(parts@), 0, ",\n"@, Seq::empty()) == sp_join(
                    views_of(parts@),
                    pi as int,
                    ",\n"@,
                    joined@,
                ),
            decreases parts@.len() - pi,
        {
            let ghost j0 = joined@;
            let ghost pv = views_of(parts@);
            if pi > 0 {
                joined.append(",\n");
            }
            joined.append(parts[pi].as_str());
            proof {
                assert(pv[pi as int] == parts@[pi as int]@);
                assert(joined@ =~= j0 + (if pi == 0 {
                    Seq::<char>::empty()
                } else {
                    ",\n"@
                }) + pv[pi as int]);
            }
            pi = pi + 1;
        }
        stmt.append(joined.as_str());
        stmt.append("\n);");
        Ok(stmt)
    }

    fn field_to_sql_parts(&self, fld: &Field, fks: &mut Vec<String>) -> (r: Result<
        String,
        ToSQLError,
    >)
        ensures
            match sp_field_sql(self@, fld@) {
                Ok(cf) => r matches Ok(col) && col@ == cf.0 && views_of(final(fks)@) == views_of(
                    old(fks)@,
                ) + cf.1,
                Err(e) => r matches Err(x) && x@ == e && final(fks)@ == old(fks)@,
            },
    {
        broadcast use crate::schema::lemma_views_of_push;

        let mut col = String::from_str("    ");
        col.append(fld.name.as_str());
        col.append(" ");
        let ts = fld.data_type.data_type.to_sql(true);
        col.append(ts.as_str());
        // the membership check of an enum-typed column
        if let DataType::Enum(ename) = &fld.data_type.data_type {
            match self.get_enum(ename.as_str()) {
                Some(e) => {
                    col.append(" CHECK(");
                    col.append(fld.name.as_str());
                    col.append(" IN (");
                    let mut vl = String::new();
                    let ghost vs = e@.variants;
                    let mut vi: usize = 0;
                    while vi < e.variants.len()
                        invariant
                            vi <= e.variants@.len(),
                            vs == views_of(e.variants@),
                            sp_variant_list(vs, 0, Seq::empty()) == sp_variant_list(
                                vs,
                                vi as int,
                                vl@,
                            ),
                        decreases e.variants@.len() - vi,
                    {
                        let ghost vl0 = vl@;
                        if vi > 0 {
                            vl.append(", ");
                        }
                        vl.append("'");
                        vl.append(e.variants[vi].name.as_str());
                        vl.append("'");
                        proof {
                            assert(vs[vi as int] == e.variants@[vi as int]@);
                            assert(vl@ =~= vl0 + (if vi == 0 {
                                Seq::<char>::empty()
                            } else {
                                ", "@
                            }) + "'"@ + vs[vi as int].name + "'"@);
                        }
                        vi = vi + 1;
                    }
                    col.append(vl.as_str());
                    col.append("))");
                },
                None => {
                    return Err(
                        ToSQLError::EnumNotFound {
                            enum_name: ename.clone(),
                            line_number: fld.line_number,
                            column: fld.column,
                        },
                    );
                },
            }
        }
        // the properties
        let ghost basecol = col@;
        let ghost fks0 = views_of(old(fks)@);
        let mut pi: usize = 0;
        proof {
            assert(sp_enum_check(self@, fld@) is Ok);
            assert(col@ =~= "    "@ + fld@.name + " "@ + sp_type_sql(
                fld@.data_type.data_type,
                true,
            ) + sp_enum_check(self@, fld@)->Ok_0);
            assert(sp_field_sql(self@, fld@) == sp_field_props_fold(
                self@,
                fld@,
                0,
                basecol,
                Seq::empty(),
            ));
        }
        let ghost newfks0 = Seq::<Seq<char>>::empty();
        let mut newfks: Vec<String> = Vec::new();
        proof {
            assert(views_of(newfks@) =~= newfks0);
        }
        while pi < fld.properties.len()
            invariant
                pi <= fld.properties@.len(),
                sp_field_sql(self@, fld@) == sp_field_props_fold(
                    self@,
                    fld@,
                    pi as int,
                    col@,
                    views_of(newfks@),
                ),
            decreases fld.properties@.len() - pi,
        {
            let p = &fld.properties[pi];
            proof {
                assert(fld@.properties[pi as int] == p@);
            }
            match p {
                Property::FunctionCall(f) => {
                    if str_eq(f.name.as_str(), "foreign_key") {
                        match foreign_key(self, &f.arguments, &f.context) {
                            Ok(fk) => {
                                let ghost n0 = views_of(newfks@);
                                let ghost fkv = fk@;
                                newfks.push(fk);
                                proof {
                                    assert(views_of(newfks@) =~= n0.push(fkv));
                                }
                            },
                            Err(e) => {
                                return Err(e);
                            },
                        }
                    } else {
                        let ghost c0 = col@;
                        match f.to_sql(self) {
                            Ok(ps) => {
                                col.append(" ");
                                col.append(ps.as_str());
                                proof {
                                    assert(col@ =~= c0 + " "@ + ps@);
                                }
                            },
                            Err(e) => {
                                return Err(e);
                            },
                        }
                    }
                },
                Property::PrimaryKey => {
                    let ghost c0 = col@;
                    col.append(" ");
                    col.append("PRIMARY KEY");
                    proof {
                        assert(col@ =~= c0 + " "@ + "PRIMARY KEY"@);
                    }
                },
                Property::AutoIncrement => {
                    let ghost c0 = col@;
                    col.append(" ");
                    col.append("AUTOINCREMENT");
                    proof {
                        assert(col@ =~= c0 + " "@ + "AUTOINCREMENT"@);
                    }
                },
                Property::Unique => {
                    let ghost c0 = col@;
                    col.append(" ");
                    col.append("UNIQUE");
                    proof {
                        assert(col@ =~= c0 + " "@ + "UNIQUE"@);
                    }
                },
            }
            pi = pi + 1;
        }
        let mut nf = newfks;
        fks.append(&mut nf);
        proof {
            assert(views_of(fks@) =~= fks0 + sp_field_props_fold(
                self@,
                fld@,
                0,
                basecol,
                Seq::empty(),
            )->Ok_0.1);
        }
        Ok(col)
    }
}

} // verus!
