//! Explicit duplication with a contract: `dup` returns a value with the same
//! view. Verified code uses it where unverified `Clone` impls would say
//! nothing about the copy.

use vstd::prelude::*;

verus! {

/// A type whose values can be duplicated view-for-view.
pub trait Dup: View + Sized {
    fn dup(&self) -> (r: Self)
        ensures
            r@ == self@,
    ;
}

impl Dup for u64 {
    fn dup(&self) -> (r: Self)
        ensures
            r@ == self@,
    {
        *self
    }
}

impl Dup for String {
    fn dup(&self) -> (r: Self)
        ensures
            r@ == self@,
    {
        self.clone()
    }
}

impl Dup for Vec<u8> {
    fn dup(&self) -> (r: Self)
        ensures
            r@ == self@,
    {
        let n = self.len();
        let mut r: Vec<u8> = Vec::new();
        let mut i: usize = 0;
        while i < n
            invariant
                i <= n,
                n == self@.len(),
                r@ =~= self@.take(i as int),
            decreases n - i,
        {
            r.push(self[i]);
            i = i + 1;
        }
        proof {
            assert(r@ =~= self@);
        }
        r
    }
}

/// Duplicate a vector element by element; the result is view-equal pointwise.
pub fn dup_vec<T: Dup>(v: &Vec<T>) -> (r: Vec<T>)
    ensures
        r@.len() == v@.len(),
        forall|i: int| 0 <= i < v@.len() ==> #[trigger] r@[i]@ == v@[i]@,
{
    let n = v.len();
    let mut r: Vec<T> = Vec::new();
    let mut i: usize = 0;
    while i < n
        invariant
            i <= n,
            n == v@.len(),
            r@.len() == i,
            forall|j: int| 0 <= j < i ==> #[trigger] r@[j]@ == v@[j]@,
        decreases n - i,
    {
        r.push(v[i].dup());
        i = i + 1;
    }
    r
}

} // verus!
