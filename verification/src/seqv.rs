use vstd::prelude::*;

use crate::dup::Dup;

verus! {

/// A value tagged with the sequence number the store assigned when it was
/// written. The store hands out sequence numbers from one strictly increasing
/// counter, so for one key a later write always carries a larger `seq`.
#[derive(Debug, PartialEq, Eq)]
pub struct SeqV<T> {
    pub seq: u64,
    pub data: T,
}

/// The mathematical image of a `SeqV`: the same tag over the view of the data.
#[verifier::ext_equal]
pub ghost struct SeqVG<D> {
    pub seq: u64,
    pub data: D,
}

impl<T: View> View for SeqV<T> {
    type V = SeqVG<T::V>;

    open spec fn view(&self) -> SeqVG<T::V> {
        SeqVG { seq: self.seq, data: self.data@ }
    }
}

impl<T: View> SeqV<T> {
    pub fn new(seq: u64, data: T) -> (r: Self)
        ensures
            r@ == (SeqVG { seq, data: data@ }),
    {
        SeqV { seq, data }
    }
}

impl<T: Dup> Dup for SeqV<T> {
    fn dup(&self) -> (r: Self)
        ensures
            r@ == self@,
    {
        let r = SeqV { seq: self.seq, data: self.data.dup() };
        proof {
            assert(r@ =~= self@);
        }
        r
    }
}

/// The sequence number a conditional write compares against: the `seq` of the
/// current value, or 0 when the key is absent.
pub open spec fn seq_of<T>(sv: Option<SeqV<T>>) -> u64 {
    match sv {
        Option::None => 0,
        Option::Some(s) => s.seq,
    }
}

/// `seq_of` over the mathematical image of an entry.
pub open spec fn seq_of_g<D>(sv: Option<SeqVG<D>>) -> u64 {
    match sv {
        Option::None => 0,
        Option::Some(s) => s.seq,
    }
}

} // verus!
