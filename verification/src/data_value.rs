//! A single value of a column, possibly null.

use vstd::prelude::*;

use crate::data_type::DataType;
use crate::dup::Dup;

verus! {

#[derive(Debug, PartialEq, Eq)]
pub enum DataValue {
    Null,
    Boolean(Option<bool>),
    Int64(Option<i64>),
    UInt64(Option<u64>),
    Utf8(Option<Vec<u8>>),
}

/// The mathematical image of a `DataValue`.
pub ghost enum DataValueG {
    Null,
    Boolean(Option<bool>),
    Int64(Option<i64>),
    UInt64(Option<u64>),
    Utf8(Option<Seq<u8>>),
}

impl View for DataValue {
    type V = DataValueG;

    open spec fn view(&self) -> DataValueG {
        match self {
            DataValue::Null => DataValueG::Null,
            DataValue::Boolean(b) => DataValueG::Boolean(*b),
            DataValue::Int64(v) => DataValueG::Int64(*v),
            DataValue::UInt64(v) => DataValueG::UInt64(*v),
            DataValue::Utf8(v) => DataValueG::Utf8(
                match v {
                    Option::None => None,
                    Option::Some(b) => Some(b@),
                },
            ),
        }
    }
}

impl Dup for DataValue {
    fn dup(&self) -> (r: Self)
        ensures
            r@ == self@,
    {
        match self {
            DataValue::Null => DataValue::Null,
            DataValue::Boolean(b) => DataValue::Boolean(*b),
            DataValue::Int64(v) => DataValue::Int64(*v),
            DataValue::UInt64(v) => DataValue::UInt64(*v),
            DataValue::Utf8(v) => DataValue::Utf8(
                match v {
                    Option::None => None,
                    Option::Some(b) => Some(b.dup()),
                },
            ),
        }
    }
}

/// The logical type a value belongs to.
pub open spec fn spec_value_type(v: DataValueG) -> DataType {
    match v {
        DataValueG::Null => DataType::Null,
        DataValueG::Boolean(_) => DataType::Boolean,
        DataValueG::Int64(_) => DataType::Int64,
        DataValueG::UInt64(_) => DataType::UInt64,
        DataValueG::Utf8(_) => DataType::String,
    }
}

/// The bytes a value accounts for in the memory measure of an array.
pub open spec fn spec_value_size(v: DataValueG) -> nat {
    match v {
        DataValueG::Null => 1,
        DataValueG::Boolean(_) => 1,
        DataValueG::Int64(_) => 8,
        DataValueG::UInt64(_) => 8,
        DataValueG::Utf8(b) => match b {
            Option::None => 1,
            Option::Some(bytes) => bytes.len(),
        },
    }
}

impl DataValue {
    pub fn data_type(&self) -> (r: DataType)
        ensures
            r == spec_value_type(self@),
    {
        match self {
            DataValue::Null => DataType::Null,
            DataValue::Boolean(_) => DataType::Boolean,
            DataValue::Int64(_) => DataType::Int64,
            DataValue::UInt64(_) => DataType::UInt64,
            DataValue::Utf8(_) => DataType::String,
        }
    }

    pub fn is_null(&self) -> (r: bool)
        ensures
            r == (self@ is Null),
    {
        match self {
            DataValue::Null => true,
            _ => false,
        }
    }

    /// The bytes this value accounts for in the memory measure.
    pub fn byte_size(&self) -> (r: usize)
        ensures
            r == spec_value_size(self@),
    {
        match self {
            DataValue::Null => 1,
            DataValue::Boolean(_) => 1,
            DataValue::Int64(_) => 8,
            DataValue::UInt64(_) => 8,
            DataValue::Utf8(b) => match b {
                Option::None => 1,
                Option::Some(bytes) => bytes.len(),
            },
        }
    }
}

} // verus!
