//! Literal values and the data type each one denotes.

use vstd::prelude::*;
use crate::types::DataType;
use crate::types::DataTypeV;

verus! {

/// A literal argument value. A real literal carries its canonical decimal
/// rendering.
pub enum Value {
    StringLiteral(String),
    Integer(i64),
    Real(String),
    Boolean(bool),
}

pub enum ValueV {
    StringLiteral(Seq<char>),
    Integer(int),
    Real(Seq<char>),
    Boolean(bool),
}

impl View for Value {
    type V = ValueV;

    open spec fn view(&self) -> ValueV {
        match self {
            Value::StringLiteral(s) => ValueV::StringLiteral(s@),
            Value::Integer(i) => ValueV::Integer(*i as int),
            Value::Real(s) => ValueV::Real(s@),
            Value::Boolean(b) => ValueV::Boolean(*b),
        }
    }
}

impl Clone for Value {
    fn clone(&self) -> (r: Value)
        ensures
            r@ == self@,
    {
        match self {
            Value::StringLiteral(s) => Value::StringLiteral(s.clone()),
            Value::Integer(i) => Value::Integer(*i),
            Value::Real(s) => Value::Real(s.clone()),
            Value::Boolean(b) => Value::Boolean(*b),
        }
    }
}

/// The data type a literal value denotes.
pub open spec fn spec_value_type(v: ValueV) -> DataTypeV {
    match v {
        ValueV::StringLiteral(_) => DataTypeV::String,
        ValueV::Integer(_) => DataTypeV::Integer,
        ValueV::Real(_) => DataTypeV::Real,
        ValueV::Boolean(_) => DataTypeV::Boolean,
    }
}

impl Value {
    pub fn get_type(&self) -> (r: DataType)
        ensures
            r@ == spec_value_type(self@),
    {
        match self {
            Value::StringLiteral(_) => DataType::String,
            Value::Integer(_) => DataType::Integer,
            Value::Real(_) => DataType::Real,
            Value::Boolean(_) => DataType::Boolean,
        }
    }
}

} // verus!
