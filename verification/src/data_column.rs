//! A column as a plan operates on it: a full array, or a single value standing
//! for a constant column of a known length.

use vstd::prelude::*;

use crate::data_field::DataField;
use crate::data_field::DataFieldG;
use crate::data_type::spec_physical_type;
use crate::data_type::DataType;
use crate::data_type::PhysicalDataType;
use crate::data_value::spec_value_size;
use crate::data_value::spec_value_type;
use crate::data_value::DataValue;
use crate::data_value::DataValueG;
use crate::dup::Dup;
use crate::series::spec_capped;
use crate::series::spec_values_size;
use crate::series::Series;
use crate::series::SeriesG;

verus! {

pub enum DataColumn {
    /// An array of values.
    Array(Series),
    /// A single value repeated to the given length.
    Constant(DataValue, usize),
}

/// The mathematical image of a `DataColumn`.
pub ghost enum DataColumnG {
    Array(SeriesG),
    Constant(DataValueG, usize),
}

impl View for DataColumn {
    type V = DataColumnG;

    open spec fn view(&self) -> DataColumnG {
        match self {
            DataColumn::Array(s) => DataColumnG::Array(s@),
            DataColumn::Constant(v, n) => DataColumnG::Constant(v@, *n),
        }
    }
}

/// The logical type of the column.
pub open spec fn spec_column_type(c: DataColumnG) -> DataType {
    match c {
        DataColumnG::Array(s) => s.data_type,
        DataColumnG::Constant(v, _) => spec_value_type(v),
    }
}

/// The number of rows of the column.
pub open spec fn spec_column_len(c: DataColumnG) -> nat {
    match c {
        DataColumnG::Array(s) => s.values.len(),
        DataColumnG::Constant(_, n) => n as nat,
    }
}

/// The memory measure of the column, capped at `usize::MAX`: what the array
/// holds, or what the constant would hold if materialized.
pub open spec fn spec_column_mem(c: DataColumnG) -> usize {
    match c {
        DataColumnG::Array(s) => spec_capped(spec_values_size(s.values)),
        DataColumnG::Constant(v, n) => spec_capped(n as nat * spec_value_size(v)),
    }
}

impl Dup for DataColumn {
    fn dup(&self) -> (r: Self)
        ensures
            r@ == self@,
    {
        match self {
            DataColumn::Array(s) => DataColumn::Array(s.dup()),
            DataColumn::Constant(v, n) => DataColumn::Constant(v.dup(), *n),
        }
    }
}

impl DataColumn {
    pub fn data_type(&self) -> (r: DataType)
        ensures
            r == spec_column_type(self@),
    {
        match self {
            DataColumn::Array(array) => array.data_type(),
            DataColumn::Constant(v, _) => v.data_type(),
        }
    }

    pub fn physical_type(&self) -> (r: PhysicalDataType)
        ensures
            r == spec_physical_type(spec_column_type(self@)),
    {
        self.data_type().to_physical_type()
    }

    pub fn len(&self) -> (r: usize)
        ensures
            r == spec_column_len(self@),
    {
        match self {
            DataColumn::Array(array) => array.len(),
            DataColumn::Constant(_, size) => *size,
        }
    }

    pub fn is_empty(&self) -> (r: bool)
        ensures
            r == (spec_column_len(self@) == 0),
    {
        self.len() == 0
    }

    pub fn get_array_memory_size(&self) -> (r: usize)
        ensures
            r == spec_column_mem(self@),
    {
        match self {
            DataColumn::Array(array) => array.get_array_memory_size(),
            DataColumn::Constant(v, size) => {
                let sz = v.byte_size();
                let n = *size;
                if sz != 0 && n > usize::MAX / sz {
                    proof {
                        assert(n as nat * spec_value_size(v@) > usize::MAX) by (nonlinear_arith)
                            requires
                                sz == spec_value_size(v@),
                                sz >= 1,
                                n as int > usize::MAX as int / sz as int,
                        ;
                    }
                    usize::MAX
                } else if sz == 0 {
                    proof {
                        assert(n as nat * spec_value_size(v@) == 0) by (nonlinear_arith)
                            requires
                                spec_value_size(v@) == 0,
                        ;
                    }
                    0
                } else {
                    proof {
                        assert(n as nat * spec_value_size(v@) <= usize::MAX) by (nonlinear_arith)
                            requires
                                sz == spec_value_size(v@),
                                sz >= 1,
                                n as int <= usize::MAX as int / sz as int,
                        ;
                    }
                    n * sz
                }
            },
        }
    }

    /// The rows `offset ..= offset + length - 1` of an array; a constant only
    /// changes its length.
    pub fn slice(&self, offset: usize, length: usize) -> (r: DataColumn)
        requires
            self@ matches DataColumnG::Array(s) ==> offset + length <= s.values.len(),
        ensures
            match self@ {
                DataColumnG::Array(s) => r@ == DataColumnG::Array(
                    SeriesG {
                        data_type: s.data_type,
                        values: s.values.subrange(offset as int, offset as int + length as int),
                    },
                ),
                DataColumnG::Constant(v, _) => r@ == DataColumnG::Constant(v, length),
            },
    {
        match self {
            DataColumn::Array(array) => DataColumn::Array(array.slice(offset, length)),
            DataColumn::Constant(scalar, _) => DataColumn::Constant(scalar.dup(), length),
        }
    }

    /// An empty column of the same type and kind.
    pub fn clone_empty(&self) -> (r: DataColumn)
        ensures
            spec_column_len(r@) == 0,
            spec_column_type(r@) == spec_column_type(self@),
            r@ is Array <==> self@ is Array,
    {
        match self {
            DataColumn::Array(array) => {
                let r = DataColumn::Array(array.slice(0, 0));
                proof {
                    assert(spec_column_len(r@) == 0);
                }
                r
            },
            DataColumn::Constant(scalar, _) => DataColumn::Constant(scalar.dup(), 0),
        }
    }

    /// Turn a single-row array, or a constant, into a constant of the given
    /// length; any other column is kept as it is.
    pub fn resize_constant(&self, size: usize) -> (r: Self)
        ensures
            match self@ {
                DataColumnG::Array(s) => if s.values.len() == 1 {
                    r@ == DataColumnG::Constant(s.values[0], size)
                } else {
                    r@ == self@
                },
                DataColumnG::Constant(v, _) => r@ == DataColumnG::Constant(v, size),
            },
    {
        match self {
            DataColumn::Array(array) => {
                if array.len() == 1 {
                    let value = array.try_get(0);
                    DataColumn::Constant(value, size)
                } else {
                    self.dup()
                }
            },
            DataColumn::Constant(scalar, _) => DataColumn::Constant(scalar.dup(), size),
        }
    }

    /// The value at `index`: the array's row, or the constant itself.
    pub fn try_get(&self, index: usize) -> (r: DataValue)
        requires
            index < spec_column_len(self@),
        ensures
            match self@ {
                DataColumnG::Array(s) => r@ == s.values[index as int],
                DataColumnG::Constant(v, _) => r@ == v,
            },
    {
        match self {
            DataColumn::Array(array) => array.try_get(index),
            DataColumn::Constant(scalar, _) => scalar.dup(),
        }
    }
}

/// A column together with the schema field it carries.
pub struct DataColumnWithField {
    column: DataColumn,
    field: DataField,
}

impl DataColumnWithField {
    pub fn new(column: DataColumn, field: DataField) -> (r: Self)
        ensures
            r.column_view() == column@,
            r.field_view() == field@,
    {
        Self { column, field }
    }

    /// The image of the carried column.
    pub closed spec fn column_view(&self) -> DataColumnG {
        self.column@
    }

    /// The image of the carried field.
    pub closed spec fn field_view(&self) -> DataFieldG {
        self.field@
    }

    pub fn column(&self) -> (r: &DataColumn)
        ensures
            r@ == self.column_view(),
    {
        &self.column
    }

    pub fn field(&self) -> (r: &DataField)
        ensures
            r@ == self.field_view(),
    {
        &self.field
    }

    pub fn data_type(&self) -> (r: &DataType)
        ensures
            *r == self.field_view().data_type,
    {
        self.field.data_type()
    }
}

} // verus!
