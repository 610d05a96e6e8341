//! Building arrays value by value, and turning columns into wire text.

use vstd::prelude::*;

use crate::data_column::DataColumn;
use crate::data_type::DataType;
use crate::data_value::DataValue;
use crate::errors::ErrorCode;
use crate::series::Series;

verus! {

/// An array under construction: values appended one by one, finished into an
/// array.
pub trait ArrayBuilder<N, Array> {
    fn append_value(&mut self, val: N);

    fn append_null(&mut self);

    fn append_option(&mut self, opt_val: Option<N>) {
        match opt_val {
            Option::Some(v) => self.append_value(v),
            Option::None => self.append_null(),
        }
    }

    fn finish(&mut self) -> Array;
}

/// Builds a string array.
pub struct StringArrayBuilder {
    values: Vec<DataValue>,
}

impl StringArrayBuilder {
    pub fn with_capacity(capacity: usize) -> (r: Self)
        ensures
            r.len_spec() == 0,
    {
        let mut values: Vec<DataValue> = Vec::new();
        values.reserve(capacity);
        StringArrayBuilder { values }
    }

    /// How many values have been appended.
    pub closed spec fn len_spec(&self) -> nat {
        self.values@.len()
    }
}

impl ArrayBuilder<Vec<u8>, Series> for StringArrayBuilder {
    fn append_value(&mut self, val: Vec<u8>) {
        self.values.push(DataValue::Utf8(Some(val)));
    }

    fn append_null(&mut self) {
        self.values.push(DataValue::Utf8(None));
    }

    fn finish(&mut self) -> Series {
        let mut values: Vec<DataValue> = Vec::new();
        core::mem::swap(&mut values, &mut self.values);
        Series::new(DataType::String, values)
    }
}

/// Turns column values into their text form for a wire protocol.
pub trait TypeSerializer {
    fn serialize_value(&self, value: &DataValue) -> Result<String, ErrorCode>;

    fn serialize_column(&self, column: &DataColumn) -> Result<Vec<String>, ErrorCode>;
}

/// The serializer of the null column: every value prints as `NULL`.
pub struct NullSerializer {}

impl TypeSerializer for NullSerializer {
    fn serialize_value(&self, value: &DataValue) -> Result<String, ErrorCode> {
        Ok("NULL".to_owned())
    }

    fn serialize_column(&self, column: &DataColumn) -> Result<Vec<String>, ErrorCode> {
        let n = column.len();
        let mut result: Vec<String> = Vec::new();
        let mut i: usize = 0;
        while i < n
            invariant
                i <= n,
                result@.len() == i,
            decreases n - i,
        {
            result.push("NULL".to_owned());
            i = i + 1;
        }
        Ok(result)
    }
}

/// Fills an array builder from raw input bytes.
pub trait TypeDeserializer {
    /// One value from each fixed-size cell of the input.
    fn de_batch(&mut self, reader: &[u8], step: usize, rows: usize)
        requires
            step * rows <= reader@.len(),
            1 <= step,
    ;

    /// One value from a whole text field.
    fn de_text(&mut self, reader: &[u8]);

    fn de_null(&mut self);

    fn finish_to_series(&mut self) -> Series;
}

/// Deserializes string values.
pub struct StringDeserializer {
    pub builder: StringArrayBuilder,
}

impl StringDeserializer {
    pub fn with_capacity(capacity: usize) -> (r: Self) {
        StringDeserializer { builder: StringArrayBuilder::with_capacity(capacity) }
    }
}

/// The bytes of the input from `from` on.
fn tail_bytes(reader: &[u8], from: usize) -> (r: Vec<u8>)
    requires
        from <= reader@.len(),
    ensures
        r@ == reader@.skip(from as int),
{
    let n = reader.len();
    let mut r: Vec<u8> = Vec::new();
    let mut i: usize = from;
    while i < n
        invariant
            from <= i <= n,
            n == reader@.len(),
            r@.len() == i - from,
            forall|j: int| 0 <= j < i - from ==> r@[j] == reader@[from + j],
        decreases n - i,
    {
        r.push(reader[i]);
        i = i + 1;
    }
    proof {
        assert(r@ =~= reader@.skip(from as int));
    }
    r
}

impl TypeDeserializer for StringDeserializer {
    fn de_batch(&mut self, reader: &[u8], step: usize, rows: usize) {
        let n = reader.len();
        let mut row: usize = 0;
        let mut offset: usize = 0;
        while row < rows
            invariant
                row <= rows,
                offset == step * row,
                step * rows <= reader@.len(),
                n == reader@.len(),
                1 <= step,
            decreases rows - row,
        {
            proof {
                assert(step * row + step == step * (row + 1)) by (nonlinear_arith);
                assert(step * (row + 1) <= step * rows) by (nonlinear_arith)
                    requires
                        row + 1 <= rows,
                        step >= 1,
                ;
            }
            let cell = tail_bytes(reader, offset);
            self.builder.append_value(cell);
            offset = offset + step;
            row = row + 1;
        }
    }

    fn de_text(&mut self, reader: &[u8]) {
        self.builder.append_value(tail_bytes(reader, 0));
    }

    fn de_null(&mut self) {
        self.builder.append_null();
    }

    fn finish_to_series(&mut self) -> Series {
        self.builder.finish()
    }
}

} // verus!
