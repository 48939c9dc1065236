//! Field data types, including the optional wrapper and enum-typed fields.

use vstd::prelude::*;
use crate::text::str_eq;

verus! {

pub enum DataType {
    String,
    Integer,
    Real,
    Blob,
    Boolean,
    Timestamp,
    Optional(Box<DataType>),
    Enum(String),
}

pub enum DataTypeV {
    String,
    Integer,
    Real,
    Blob,
    Boolean,
    Timestamp,
    Optional(Box<DataTypeV>),
    Enum(Seq<char>),
}

pub open spec fn data_type_view(t: DataType) -> DataTypeV
    decreases t,
{
    match t {
        DataType::String => DataTypeV::String,
        DataType::Integer => DataTypeV::Integer,
        DataType::Real => DataTypeV::Real,
        DataType::Blob => DataTypeV::Blob,
        DataType::Boolean => DataTypeV::Boolean,
        DataType::Timestamp => DataTypeV::Timestamp,
        DataType::Optional(inner) => DataTypeV::Optional(Box::new(data_type_view(*inner))),
        DataType::Enum(name) => DataTypeV::Enum(name@),
    }
}

impl View for DataType {
    type V = DataTypeV;

    open spec fn view(&self) -> DataTypeV {
        data_type_view(*self)
    }
}

impl Clone for DataType {
    fn clone(&self) -> (r: DataType)
        ensures
            r@ == self@,
        decreases self,
    {
        match self {
            DataType::String => DataType::String,
            DataType::Integer => DataType::Integer,
            DataType::Real => DataType::Real,
            DataType::Blob => DataType::Blob,
            DataType::Boolean => DataType::Boolean,
            DataType::Timestamp => DataType::Timestamp,
            DataType::Optional(inner) => DataType::Optional(Box::new((**inner).clone())),
            DataType::Enum(name) => DataType::Enum(name.clone()),
        }
    }
}

impl DataType {
    /// Structural equality of two declared types.
    pub fn same_type(&self, other: &DataType) -> (r: bool)
        ensures
            r == (self@ == other@),
        decreases self,
    {
        match (self, other) {
            (DataType::String, DataType::String) => true,
            (DataType::Integer, DataType::Integer) => true,
            (DataType::Real, DataType::Real) => true,
            (DataType::Blob, DataType::Blob) => true,
            (DataType::Boolean, DataType::Boolean) => true,
            (DataType::Timestamp, DataType::Timestamp) => true,
            (DataType::Optional(a), DataType::Optional(b)) => (**a).same_type(&**b),
            (DataType::Enum(a), DataType::Enum(b)) => str_eq(a.as_str(), b.as_str()),
            _ => false,
        }
    }
}

} // verus!
