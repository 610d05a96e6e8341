//! A typed array of values: the in-memory column the engine computes on.

use vstd::prelude::*;

use crate::data_type::DataType;
use crate::data_value::spec_value_size;
use crate::data_value::DataValue;
use crate::data_value::DataValueG;
use crate::dup::dup_vec;
use crate::dup::Dup;

verus! {

pub struct Series {
    data_type: DataType,
    values: Vec<DataValue>,
}

/// The mathematical image of a `Series`.
#[verifier::ext_equal]
pub ghost struct SeriesG {
    pub data_type: DataType,
    pub values: Seq<DataValueG>,
}

impl View for Series {
    type V = SeriesG;

    closed spec fn view(&self) -> SeriesG {
        SeriesG {
            data_type: self.data_type,
            values: self.values@.map(|i: int, v: DataValue| v@),
        }
    }
}

/// The memory measure of the values: the sum of their byte sizes.
pub open spec fn spec_values_size(s: Seq<DataValueG>) -> nat
    decreases s.len(),
{
    if s.len() == 0 {
        0
    } else {
        spec_values_size(s.drop_last()) + spec_value_size(s.last())
    }
}

/// A sum capped at what a `usize` can carry.
pub open spec fn spec_capped(n: nat) -> usize {
    if n <= usize::MAX {
        n as usize
    } else {
        usize::MAX
    }
}

impl Series {
    pub fn new(data_type: DataType, values: Vec<DataValue>) -> (r: Self)
        ensures
            r@ == (SeriesG {
                data_type,
                values: values@.map(|i: int, v: DataValue| v@),
            }),
    {
        Series { data_type, values }
    }

    pub fn data_type(&self) -> (r: DataType)
        ensures
            r == self@.data_type,
    {
        self.data_type
    }

    pub fn len(&self) -> (r: usize)
        ensures
            r == self@.values.len(),
    {
        self.values.len()
    }

    pub fn try_get(&self, index: usize) -> (r: DataValue)
        requires
            index < self@.values.len(),
        ensures
            r@ == self@.values[index as int],
    {
        self.values[index].dup()
    }

    /// The contiguous run `offset ..= offset + length - 1`.
    pub fn slice(&self, offset: usize, length: usize) -> (r: Series)
        requires
            offset + length <= self@.values.len(),
        ensures
            r@ == (SeriesG {
                data_type: self@.data_type,
                values: self@.values.subrange(offset as int, offset as int + length as int),
            }),
    {
        let n = self.values.len();
        proof {
            assert(self@.values.len() == n);
        }
        let mut values: Vec<DataValue> = Vec::new();
        let mut i: usize = 0;
        while i < length
            invariant
                i <= length,
                offset + length <= self@.values.len(),
                self@.values.len() <= usize::MAX,
                values@.len() == i,
                forall|j: int|
                    0 <= j < i ==> #[trigger] values@[j]@ == self@.values[offset + j],
            decreases length - i,
        {
            values.push(self.values[offset + i].dup());
            i = i + 1;
        }
        let r = Series { data_type: self.data_type, values };
        proof {
            assert(r@.values =~= self@.values.subrange(
                offset as int,
                offset as int + length as int,
            ));
            assert(r@ =~= SeriesG {
                data_type: self@.data_type,
                values: self@.values.subrange(offset as int, offset as int + length as int),
            });
        }
        r
    }

    /// The memory measure of the array, capped at `usize::MAX`.
    pub fn get_array_memory_size(&self) -> (r: usize)
        ensures
            r == spec_capped(spec_values_size(self@.values)),
    {
        let n = self.values.len();
        let mut acc: usize = 0;
        let mut i: usize = 0;
        proof {
            assert(self@.values.take(0) =~= Seq::<DataValueG>::empty());
        }
        while i < n
            invariant
                i <= n,
                n == self@.values.len(),
                acc == spec_capped(spec_values_size(self@.values.take(i as int))),
            decreases n - i,
        {
            proof {
                assert(self@.values.take(i as int + 1).drop_last() =~= self@.values.take(i as int));
                assert(self@.values.take(i as int + 1).last() == self@.values[i as int]);
            }
            let sz = self.values[i].byte_size();
            if acc > usize::MAX - sz {
                acc = usize::MAX;
            } else {
                acc = acc + sz;
            }
            i = i + 1;
        }
        proof {
            assert(self@.values.take(n as int) =~= self@.values);
        }
        acc
    }
}

impl Dup for Series {
    fn dup(&self) -> (r: Self)
        ensures
            r@ == self@,
    {
        let r = Series { data_type: self.data_type, values: dup_vec(&self.values) };
        proof {
            assert(r@.values =~= self@.values);
            assert(r@ =~= self@);
        }
        r
    }
}

} // verus!
