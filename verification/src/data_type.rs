//! The logical column types of the engine and their physical representation.

use vstd::prelude::*;

verus! {

/// A logical column type. Dates and times are logical refinements of the
/// integer types that carry them.
#[derive(Clone, Copy, Debug, PartialEq, Eq, Hash, PartialOrd, Ord, Structural)]
pub enum DataType {
    Null,
    Boolean,
    UInt8,
    UInt16,
    UInt32,
    UInt64,
    Int8,
    Int16,
    Int32,
    Int64,
    Float32,
    Float64,
    String,
    /// Days since the epoch, in 16 bits.
    Date16,
    /// Days since the epoch, in 32 bits.
    Date32,
    /// Seconds since the epoch, in 32 bits.
    DateTime32,
}

/// How values of a logical type are physically stored.
#[derive(Clone, Copy, Debug, PartialEq, Eq, Hash, Structural)]
pub enum PhysicalDataType {
    Null,
    Boolean,
    UInt8,
    UInt16,
    UInt32,
    UInt64,
    Int8,
    Int16,
    Int32,
    Int64,
    Float32,
    Float64,
    String,
}

/// The physical type that carries each logical type.
pub open spec fn spec_physical_type(t: DataType) -> PhysicalDataType {
    match t {
        DataType::Null => PhysicalDataType::Null,
        DataType::Boolean => PhysicalDataType::Boolean,
        DataType::UInt8 => PhysicalDataType::UInt8,
        DataType::UInt16 => PhysicalDataType::UInt16,
        DataType::UInt32 => PhysicalDataType::UInt32,
        DataType::UInt64 => PhysicalDataType::UInt64,
        DataType::Int8 => PhysicalDataType::Int8,
        DataType::Int16 => PhysicalDataType::Int16,
        DataType::Int32 => PhysicalDataType::Int32,
        DataType::Int64 => PhysicalDataType::Int64,
        DataType::Float32 => PhysicalDataType::Float32,
        DataType::Float64 => PhysicalDataType::Float64,
        DataType::String => PhysicalDataType::String,
        DataType::Date16 => PhysicalDataType::UInt16,
        DataType::Date32 => PhysicalDataType::Int32,
        DataType::DateTime32 => PhysicalDataType::UInt32,
    }
}

/// Whether values of the type order as numbers.
pub open spec fn spec_is_numeric(t: DataType) -> bool {
    match t {
        DataType::UInt8 | DataType::UInt16 | DataType::UInt32 | DataType::UInt64 | DataType::Int8
            | DataType::Int16 | DataType::Int32 | DataType::Int64 | DataType::Float32
            | DataType::Float64 => true,
        _ => false,
    }
}

impl DataType {
    pub fn to_physical_type(self) -> (r: PhysicalDataType)
        ensures
            r == spec_physical_type(self),
    {
        match self {
            DataType::Null => PhysicalDataType::Null,
            DataType::Boolean => PhysicalDataType::Boolean,
            DataType::UInt8 => PhysicalDataType::UInt8,
            DataType::UInt16 => PhysicalDataType::UInt16,
            DataType::UInt32 => PhysicalDataType::UInt32,
            DataType::UInt64 => PhysicalDataType::UInt64,
            DataType::Int8 => PhysicalDataType::Int8,
            DataType::Int16 => PhysicalDataType::Int16,
            DataType::Int32 => PhysicalDataType::Int32,
            DataType::Int64 => PhysicalDataType::Int64,
            DataType::Float32 => PhysicalDataType::Float32,
            DataType::Float64 => PhysicalDataType::Float64,
            DataType::String => PhysicalDataType::String,
            DataType::Date16 => PhysicalDataType::UInt16,
            DataType::Date32 => PhysicalDataType::Int32,
            DataType::DateTime32 => PhysicalDataType::UInt32,
        }
    }

    pub fn is_numeric(self) -> (r: bool)
        ensures
            r == spec_is_numeric(self),
    {
        match self {
            DataType::UInt8 | DataType::UInt16 | DataType::UInt32 | DataType::UInt64
                | DataType::Int8 | DataType::Int16 | DataType::Int32 | DataType::Int64
                | DataType::Float32 | DataType::Float64 => true,
            _ => false,
        }
    }
}

} // verus!
