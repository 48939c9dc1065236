//! The syntax tree of a schema: enums, models, fields, properties, and the
//! argument values of function-call properties, each with the position of
//! its defining token.

use vstd::prelude::*;
use crate::text::str_eq;
use crate::types::DataType;
use crate::types::DataTypeV;
use crate::value::Value;
use crate::value::ValueV;

verus! {

broadcast use vstd::std_specs::vec::axiom_vec_index_decreases, vstd::seq::axiom_seq_index_decreases;

/// The views of a sequence of viewable values.
pub open spec fn views_of<T: View>(s: Seq<T>) -> Seq<T::V> {
    s.map_values(|x: T| x@)
}

pub broadcast proof fn lemma_views_of_push<T: View>(s: Seq<T>, x: T)
    ensures
        #[trigger] views_of(s.push(x)) == views_of(s).push(x@),
{
    assert(views_of(s.push(x)) =~= views_of(s).push(x@));
}

// ---------------------------------------------------------------------------
// Positioned data types.
// ---------------------------------------------------------------------------

pub struct DataTypeWithSpan {
    pub data_type: DataType,
    pub line_number: usize,
    pub column: usize,
}

pub struct DataTypeWithSpanV {
    pub data_type: DataTypeV,
    pub line_number: int,
    pub column: int,
}

impl View for DataTypeWithSpan {
    type V = DataTypeWithSpanV;

    open spec fn view(&self) -> DataTypeWithSpanV {
        DataTypeWithSpanV {
            data_type: self.data_type@,
            line_number: self.line_number as int,
            column: self.column as int,
        }
    }
}

impl Clone for DataTypeWithSpan {
    fn clone(&self) -> (r: DataTypeWithSpan)
        ensures
            r@ == self@,
    {
        DataTypeWithSpan {
            data_type: self.data_type.clone(),
            line_number: self.line_number,
            column: self.column,
        }
    }
}

impl DataTypeWithSpan {
    pub fn new(data_type: DataType, line_number: usize, column: usize) -> (r: DataTypeWithSpan)
        ensures
            r@ == (DataTypeWithSpanV {
                data_type: data_type@,
                line_number: line_number as int,
                column: column as int,
            }),
    {
        DataTypeWithSpan { data_type, line_number, column }
    }
}

// ---------------------------------------------------------------------------
// Enums and their variants.
// ---------------------------------------------------------------------------

pub struct EnumVariant {
    pub name: String,
    pub line_number: usize,
    pub column: usize,
}

pub struct EnumVariantV {
    pub name: Seq<char>,
    pub line_number: int,
    pub column: int,
}

impl View for EnumVariant {
    type V = EnumVariantV;

    open spec fn view(&self) -> EnumVariantV {
        EnumVariantV {
            name: self.name@,
            line_number: self.line_number as int,
            column: self.column as int,
        }
    }
}

impl EnumVariant {
    pub fn new(name: String, line_number: usize, column: usize) -> (r: EnumVariant)
        ensures
            r@ == (EnumVariantV {
                name: name@,
                line_number: line_number as int,
                column: column as int,
            }),
    {
        EnumVariant { name, line_number, column }
    }
}

pub struct Enum {
    pub name: String,
    pub variants: Vec<EnumVariant>,
    pub line_number: usize,
    pub column: usize,
}

pub struct EnumV {
    pub name: Seq<char>,
    pub variants: Seq<EnumVariantV>,
    pub line_number: int,
    pub column: int,
}

impl View for Enum {
    type V = EnumV;

    open spec fn view(&self) -> EnumV {
        EnumV {
            name: self.name@,
            variants: views_of(self.variants@),
            line_number: self.line_number as int,
            column: self.column as int,
        }
    }
}

/// The index of the first variant with the given name.
pub open spec fn find_variant(vs: Seq<EnumVariantV>, name: Seq<char>, i: int) -> Option<int>
    decreases vs.len() - i,
{
    if i < 0 || i >= vs.len() {
        None
    } else if vs[i].name == name {
        Some(i)
    } else {
        find_variant(vs, name, i + 1)
    }
}

pub open spec fn spec_get_variant(e: EnumV, name: Seq<char>) -> Option<EnumVariantV> {
    match find_variant(e.variants, name, 0) {
        None => None,
        Some(i) => Some(e.variants[i]),
    }
}

impl Enum {
    pub fn new(name: String, variants: Vec<EnumVariant>, line_number: usize, column: usize) -> (r:
        Enum)
        ensures
            r@ == (EnumV {
                name: name@,
                variants: views_of(variants@),
                line_number: line_number as int,
                column: column as int,
            }),
    {
        Enum { name, variants, line_number, column }
    }

    /// The first variant of that name, if any.
    pub fn get_variant(&self, enum_variant: &str) -> (r: Option<&EnumVariant>)
        ensures
            match spec_get_variant(self@, enum_variant@) {
                None => r is None,
                Some(vv) => r matches Some(v) && v@ == vv,
            },
    {
        let mut i: usize = 0;
        while i < self.variants.len()
            invariant
                i <= self.variants@.len(),
                find_variant(views_of(self.variants@), enum_variant@, 0) == find_variant(
                    views_of(self.variants@),
                    enum_variant@,
                    i as int,
                ),
            decreases self.variants@.len() - i,
        {
            let v = &self.variants[i];
            if str_eq(v.name.as_str(), enum_variant) {
                return Some(v);
            }
            i = i + 1;
        }
        None
    }
}

// ---------------------------------------------------------------------------
// References: a non-owning `entity.property` name pair, resolved by lookup
// at generation time.
// ---------------------------------------------------------------------------

pub struct Reference {
    pub entity: String,
    pub property: String,
    pub line_number: usize,
    pub column: usize,
}

pub struct ReferenceV {
    pub entity: Seq<char>,
    pub property: Seq<char>,
    pub line_number: int,
    pub column: int,
}

impl View for Reference {
    type V = ReferenceV;

    open spec fn view(&self) -> ReferenceV {
        ReferenceV {
            entity: self.entity@,
            property: self.property@,
            line_number: self.line_number as int,
            column: self.column as int,
        }
    }
}

impl Clone for Reference {
    fn clone(&self) -> (r: Reference)
        ensures
            r@ == self@,
    {
        Reference {
            entity: self.entity.clone(),
            property: self.property.clone(),
            line_number: self.line_number,
            column: self.column,
        }
    }
}

impl Reference {
    pub fn new(entity: String, property: String, line_number: usize, column: usize) -> (r:
        Reference)
        ensures
            r@ == (ReferenceV {
                entity: entity@,
                property: property@,
                line_number: line_number as int,
                column: column as int,
            }),
    {
        Reference { entity, property, line_number, column }
    }
}

// ---------------------------------------------------------------------------
// Function calls and their arguments. An argument's value may itself be a
// function call, so these views are mutually recursive.
// ---------------------------------------------------------------------------

pub struct FunctionCallContext {
    pub property_name: String,
    pub property_data_type: DataTypeWithSpan,
}

pub struct FunctionCallContextV {
    pub property_name: Seq<char>,
    pub property_data_type: DataTypeWithSpanV,
}

impl View for FunctionCallContext {
    type V = FunctionCallContextV;

    open spec fn view(&self) -> FunctionCallContextV {
        FunctionCallContextV {
            property_name: self.property_name@,
            property_data_type: self.property_data_type@,
        }
    }
}

impl Clone for FunctionCallContext {
    fn clone(&self) -> (r: FunctionCallContext)
        ensures
            r@ == self@,
    {
        FunctionCallContext {
            property_name: self.property_name.clone(),
            property_data_type: self.property_data_type.clone(),
        }
    }
}

impl FunctionCallContext {
    pub fn new(property_name: String, property_data_type: DataTypeWithSpan) -> (r:
        FunctionCallContext)
        ensures
            r@ == (FunctionCallContextV {
                property_name: property_name@,
                property_data_type: property_data_type@,
            }),
    {
        FunctionCallContext { property_name, property_data_type }
    }
}

pub struct FunctionCall {
    pub name: String,
    pub arguments: Arguments,
    pub context: FunctionCallContext,
    pub line_number: usize,
    pub column: usize,
}

pub struct Arguments {
    pub list: Vec<Argument>,
    pub line_number: usize,
    pub column: usize,
}

pub struct Argument {
    pub value: ArgumentValue,
    pub line_number: usize,
    pub column: usize,
}

pub enum ArgumentValue {
    Identifier(String),
    Reference(Reference),
    FunctionCall(FunctionCall),
    Value(Value),
}

pub struct FunctionCallV {
    pub name: Seq<char>,
    pub arguments: ArgumentsV,
    pub context: FunctionCallContextV,
    pub line_number: int,
    pub column: int,
}

pub struct ArgumentsV {
    pub list: Seq<ArgumentV>,
    pub line_number: int,
    pub column: int,
}

pub struct ArgumentV {
    pub value: ArgumentValueV,
    pub line_number: int,
    pub column: int,
}

pub enum ArgumentValueV {
    Identifier(Seq<char>),
    Reference(ReferenceV),
    FunctionCall(Box<FunctionCallV>),
    Value(ValueV),
}

pub open spec fn function_call_view(f: FunctionCall) -> FunctionCallV
    decreases f, 3int,
{
    FunctionCallV {
        name: f.name@,
        arguments: arguments_view(f.arguments),
        context: f.context@,
        line_number: f.line_number as int,
        column: f.column as int,
    }
}

pub open spec fn arguments_view(a: Arguments) -> ArgumentsV
    decreases a, 3int,
{
    ArgumentsV {
        list: args_list_view(a.list, 0),
        line_number: a.line_number as int,
        column: a.column as int,
    }
}

pub open spec fn args_list_view(l: Vec<Argument>, i: int) -> Seq<ArgumentV>
    decreases l, l.len() - i,
    via args_list_view_decreases
{
    if i < 0 || i >= l.len() {
        Seq::empty()
    } else {
        seq![argument_view(l[i])] + args_list_view(l, i + 1)
    }
}

#[via_fn]
proof fn args_list_view_decreases(l: Vec<Argument>, i: int) {
    if 0 <= i < l.len() {
        assert(decreases_to!(l => l@));
        assert(decreases_to!(l@ => l@[i]));
    }
}

pub open spec fn argument_view(a: Argument) -> ArgumentV
    decreases a, 3int,
{
    ArgumentV {
        value: argument_value_view(a.value),
        line_number: a.line_number as int,
        column: a.column as int,
    }
}

pub open spec fn argument_value_view(v: ArgumentValue) -> ArgumentValueV
    decreases v, 3int,
{
    match v {
        ArgumentValue::Identifier(s) => ArgumentValueV::Identifier(s@),
        ArgumentValue::Reference(r) => ArgumentValueV::Reference(r@),
        ArgumentValue::FunctionCall(f) => ArgumentValueV::FunctionCall(
            Box::new(function_call_view(f)),
        ),
        ArgumentValue::Value(v) => ArgumentValueV::Value(v@),
    }
}

/// Element-wise description of an argument-list view.
pub proof fn lemma_args_list_view(l: Vec<Argument>, i: int)
    requires
        0 <= i <= l.len(),
    ensures
        args_list_view(l, i) == views_of(l@.skip(i)),
    decreases l.len() - i,
{
    if i == l.len() {
        assert(args_list_view(l, i) =~= views_of(l@.skip(i)));
    } else {
        lemma_args_list_view(l, i + 1);
        assert(l@.skip(i + 1) =~= l@.skip(i).skip(1));
        assert(args_list_view(l, i) =~= views_of(l@.skip(i)));
    }
}

impl View for FunctionCall {
    type V = FunctionCallV;

    open spec fn view(&self) -> FunctionCallV {
        function_call_view(*self)
    }
}

impl View for Arguments {
    type V = ArgumentsV;

    open spec fn view(&self) -> ArgumentsV {
        arguments_view(*self)
    }
}

impl View for Argument {
    type V = ArgumentV;

    open spec fn view(&self) -> ArgumentV {
        argument_view(*self)
    }
}

impl View for ArgumentValue {
    type V = ArgumentValueV;

    open spec fn view(&self) -> ArgumentValueV {
        argument_value_view(*self)
    }
}

fn clone_function_call(f: &FunctionCall) -> (r: FunctionCall)
    ensures
        r@ == f@,
    decreases f,
{
    FunctionCall {
        name: f.name.clone(),
        arguments: clone_arguments(&f.arguments),
        context: f.context.clone(),
        line_number: f.line_number,
        column: f.column,
    }
}

fn clone_arguments(a: &Arguments) -> (r: Arguments)
    ensures
        r@ == a@,
    decreases a,
{
    let mut list: Vec<Argument> = Vec::new();
    let mut i: usize = 0;
    while i < a.list.len()
        invariant
            i <= a.list@.len(),
            list@.len() == i,
            forall|j: int| 0 <= j < i ==> argument_view(#[trigger] list@[j]) == argument_view(
                a.list@[j],
            ),
        decreases a.list@.len() - i,
    {
        proof {
            vstd::std_specs::vec::axiom_vec_index_decreases(*(&a.list), i as int);
        }
        list.push(clone_argument(&a.list[i]));
        i = i + 1;
    }
    let r = Arguments { list, line_number: a.line_number, column: a.column };
    proof {
        lemma_args_list_view(r.list, 0);
        lemma_args_list_view(a.list, 0);
        assert(r.list@.skip(0) =~= r.list@);
        assert(a.list@.skip(0) =~= a.list@);
        assert(views_of(r.list@) =~= views_of(a.list@));
    }
    r
}

fn clone_argument(a: &Argument) -> (r: Argument)
    ensures
        r@ == a@,
    decreases a,
{
    Argument {
        value: clone_argument_value(&a.value),
        line_number: a.line_number,
        column: a.column,
    }
}

fn clone_argument_value(v: &ArgumentValue) -> (r: ArgumentValue)
    ensures
        r@ == v@,
    decreases v,
{
    match v {
        ArgumentValue::Identifier(s) => ArgumentValue::Identifier(s.clone()),
        ArgumentValue::Reference(r) => ArgumentValue::Reference(r.clone()),
        ArgumentValue::FunctionCall(f) => ArgumentValue::FunctionCall(clone_function_call(f)),
        ArgumentValue::Value(val) => ArgumentValue::Value(val.clone()),
    }
}

impl Clone for FunctionCall {
    fn clone(&self) -> (r: FunctionCall)
        ensures
            r@ == self@,
    {
        clone_function_call(self)
    }
}

impl Clone for Arguments {
    fn clone(&self) -> (r: Arguments)
        ensures
            r@ == self@,
    {
        clone_arguments(self)
    }
}

impl Clone for Argument {
    fn clone(&self) -> (r: Argument)
        ensures
            r@ == self@,
    {
        clone_argument(self)
    }
}

impl Clone for ArgumentValue {
    fn clone(&self) -> (r: ArgumentValue)
        ensures
            r@ == self@,
    {
        clone_argument_value(self)
    }
}

impl FunctionCall {
    pub fn new(
        name: String,
        arguments: Vec<Argument>,
        context: FunctionCallContext,
        line_number: usize,
        column: usize,
    ) -> (r: FunctionCall)
        ensures
            r@ == (FunctionCallV {
                name: name@,
                arguments: ArgumentsV {
                    list: views_of(arguments@),
                    line_number: line_number as int,
                    column: column as int,
                },
                context: context@,
                line_number: line_number as int,
                column: column as int,
            }),
    {
        let r = FunctionCall {
            name,
            arguments: Arguments::from_vec(arguments, line_number, column),
            context,
            line_number,
            column,
        };
        proof {
            lemma_args_list_view(r.arguments.list, 0);
            assert(r.arguments.list@.skip(0) =~= r.arguments.list@);
        }
        r
    }
}

impl Arguments {
    pub fn from_vec(arguments: Vec<Argument>, line_number: usize, column: usize) -> (r: Arguments)
        ensures
            r@ == (ArgumentsV {
                list: views_of(arguments@),
                line_number: line_number as int,
                column: column as int,
            }),
    {
        let r = Arguments { list: arguments, line_number, column };
        proof {
            lemma_args_list_view(r.list, 0);
            assert(r.list@.skip(0) =~= r.list@);
        }
        r
    }

    /// The first argument, if any.
    pub fn get_first(&self) -> (r: Option<&Argument>)
        ensures
            match r {
                Some(a) => self@.list.len() > 0 && a@ == self@.list[0],
                None => self@.list.len() == 0,
            },
    {
        if self.list.len() > 0 {
            Some(&self.list[0])
        } else {
            None
        }
    }
}

impl Argument {
    pub fn new(value: ArgumentValue, line_number: usize, column: usize) -> (r: Argument)
        ensures
            r@ == (ArgumentV {
                value: value@,
                line_number: line_number as int,
                column: column as int,
            }),
    {
        Argument { value, line_number, column }
    }
}

// ---------------------------------------------------------------------------
// Properties, fields, models, and the schema.
// ---------------------------------------------------------------------------

pub enum Property {
    FunctionCall(FunctionCall),
    PrimaryKey,
    AutoIncrement,
    Unique,
}

pub enum PropertyV {
    FunctionCall(FunctionCallV),
    PrimaryKey,
    AutoIncrement,
    Unique,
}

impl View for Property {
    type V = PropertyV;

    open spec fn view(&self) -> PropertyV {
        match self {
            Property::FunctionCall(f) => PropertyV::FunctionCall(function_call_view(*f)),
            Property::PrimaryKey => PropertyV::PrimaryKey,
            Property::AutoIncrement => PropertyV::AutoIncrement,
            Property::Unique => PropertyV::Unique,
        }
    }
}

pub struct Field {
    pub name: String,
    pub data_type: DataTypeWithSpan,
    pub properties: Vec<Property>,
    pub line_number: usize,
    pub column: usize,
}

pub struct FieldV {
    pub name: Seq<char>,
    pub data_type: DataTypeWithSpanV,
    pub properties: Seq<PropertyV>,
    pub line_number: int,
    pub column: int,
}

impl View for Field {
    type V = FieldV;

    open spec fn view(&self) -> FieldV {
        FieldV {
            name: self.name@,
            data_type: self.data_type@,
            properties: views_of(self.properties@),
            line_number: self.line_number as int,
            column: self.column as int,
        }
    }
}

impl Field {
    pub fn new(
        name: String,
        data_type: DataTypeWithSpan,
        properties: Vec<Property>,
        line_number: usize,
        column: usize,
    ) -> (r: Field)
        ensures
            r@ == (FieldV {
                name: name@,
                data_type: data_type@,
                properties: views_of(properties@),
                line_number: line_number as int,
                column: column as int,
            }),
    {
        Field { name, data_type, properties, line_number, column }
    }
}

pub struct Model {
    pub name: String,
    pub fields: Vec<Field>,
    pub line_number: usize,
    pub column: usize,
}

pub struct ModelV {
    pub name: Seq<char>,
    pub fields: Seq<FieldV>,
    pub line_number: int,
    pub column: int,
}

impl View for Model {
    type V = ModelV;

    open spec fn view(&self) -> ModelV {
        ModelV {
            name: self.name@,
            fields: views_of(self.fields@),
            line_number: self.line_number as int,
            column: self.column as int,
        }
    }
}

/// The index of the first field with the given name.
pub open spec fn find_field(fs: Seq<FieldV>, name: Seq<char>, i: int) -> Option<int>
    decreases fs.len() - i,
{
    if i < 0 || i >= fs.len() {
        None
    } else if fs[i].name == name {
        Some(i)
    } else {
        find_field(fs, name, i + 1)
    }
}

pub open spec fn spec_get_field(m: ModelV, name: Seq<char>) -> Option<FieldV> {
    match find_field(m.fields, name, 0) {
        None => None,
        Some(i) => Some(m.fields[i]),
    }
}

impl Model {
    pub fn new(name: String, fields: Vec<Field>, line_number: usize, column: usize) -> (r: Model)
        ensures
            r@ == (ModelV {
                name: name@,
                fields: views_of(fields@),
                line_number: line_number as int,
                column: column as int,
            }),
    {
        Model { name, fields, line_number, column }
    }

    /// The first field of that name, if any.
    pub fn get_field(&self, field_name: &str) -> (r: Option<&Field>)
        ensures
            match spec_get_field(self@, field_name@) {
                None => r is None,
                Some(fv) => r matches Some(f) && f@ == fv,
            },
    {
        let mut i: usize = 0;
        while i < self.fields.len()
            invariant
                i <= self.fields@.len(),
                find_field(views_of(self.fields@), field_name@, 0) == find_field(
                    views_of(self.fields@),
                    field_name@,
                    i as int,
                ),
            decreases self.fields@.len() - i,
        {
            let f = &self.fields[i];
            if str_eq(f.name.as_str(), field_name) {
                return Some(f);
            }
            i = i + 1;
        }
        None
    }
}

pub struct Schema {
    pub enums: Vec<Enum>,
    pub models: Vec<Model>,
}

pub struct SchemaV {
    pub enums: Seq<EnumV>,
    pub models: Seq<ModelV>,
}

impl View for Schema {
    type V = SchemaV;

    open spec fn view(&self) -> SchemaV {
        SchemaV { enums: views_of(self.enums@), models: views_of(self.models@) }
    }
}

/// The index of the first model with the given name.
pub open spec fn find_model(ms: Seq<ModelV>, name: Seq<char>, i: int) -> Option<int>
    decreases ms.len() - i,
{
    if i < 0 || i >= ms.len() {
        None
    } else if ms[i].name == name {
        Some(i)
    } else {
        find_model(ms, name, i + 1)
    }
}

pub open spec fn spec_get_model(s: SchemaV, name: Seq<char>) -> Option<ModelV> {
    match find_model(s.models, name, 0) {
        None => None,
        Some(i) => Some(s.models[i]),
    }
}

/// The index of the first enum with the given name.
pub open spec fn find_enum(es: Seq<EnumV>, name: Seq<char>, i: int) -> Option<int>
    decreases es.len() - i,
{
    if i < 0 || i >= es.len() {
        None
    } else if es[i].name == name {
        Some(i)
    } else {
        find_enum(es, name, i + 1)
    }
}

pub open spec fn spec_get_enum(s: SchemaV, name: Seq<char>) -> Option<EnumV> {
    match find_enum(s.enums, name, 0) {
        None => None,
        Some(i) => Some(s.enums[i]),
    }
}

impl Schema {
    pub fn new(enums: Vec<Enum>, models: Vec<Model>) -> (r: Schema)
        ensures
            r@ == (SchemaV { enums: views_of(enums@), models: views_of(models@) }),
    {
        Schema { enums, models }
    }

    /// The first model of that name, if any.
    pub fn get_model(&self, model_name: &str) -> (r: Option<&Model>)
        ensures
            match spec_get_model(self@, model_name@) {
                None => r is None,
                Some(mv) => r matches Some(m) && m@ == mv,
            },
    {
        let mut i: usize = 0;
        while i < self.models.len()
            invariant
                i <= self.models@.len(),
                find_model(views_of(self.models@), model_name@, 0) == find_model(
                    views_of(self.models@),
                    model_name@,
                    i as int,
                ),
            decreases self.models@.len() - i,
        {
            let m = &self.models[i];
            if str_eq(m.name.as_str(), model_name) {
                return Some(m);
            }
            i = i + 1;
        }
        None
    }

    /// The first enum of that name, if any.
    pub fn get_enum(&self, enum_name: &str) -> (r: Option<&Enum>)
        ensures
            match spec_get_enum(self@, enum_name@) {
                None => r is None,
                Some(ev) => r matches Some(e) && e@ == ev,
            },
    {
        let mut i: usize = 0;
        while i < self.enums.len()
            invariant
                i <= self.enums@.len(),
                find_enum(views_of(self.enums@), enum_name@, 0) == find_enum(
                    views_of(self.enums@),
                    enum_name@,
                    i as int,
                ),
            decreases self.enums@.len() - i,
        {
            let e = &self.enums[i];
            if str_eq(e.name.as_str(), enum_name) {
                return Some(e);
            }
            i = i + 1;
        }
        None
    }
}

} // verus!
