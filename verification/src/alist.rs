//! An executable key-space: a vector of (key, value) pairs with pairwise
//! distinct keys, whose view is the association sequence of `crate::assoc`.
//! Writes replace in place and reads return the stored pair, so iteration
//! order — and with it the replayed byte image of a replica — is deterministic.

use vstd::prelude::*;

use crate::dup::Dup;

use crate::assoc::al_distinct;
use crate::assoc::al_get;
use crate::assoc::al_remove;
use crate::assoc::al_set;
use crate::assoc::lemma_al_get_at;
use crate::assoc::lemma_al_get_none;
use crate::assoc::lemma_al_remove_absent;
use crate::assoc::lemma_al_remove_distinct;
use crate::assoc::lemma_al_remove_is_remove;
use crate::assoc::lemma_al_set_distinct;
use crate::assoc::lemma_al_set_is_push;
use crate::assoc::lemma_al_set_is_update;

verus! {

/// A type usable as the key of a key-space: its executable equality decides
/// equality of views.
pub trait AssocKey: View + Sized {
    fn same_key(&self, other: &Self) -> (r: bool)
        ensures
            r == (self@ == other@),
    ;
}

impl AssocKey for u64 {
    fn same_key(&self, other: &Self) -> (r: bool)
        ensures
            r == (self@ == other@),
    {
        *self == *other
    }
}

impl AssocKey for String {
    fn same_key(&self, other: &Self) -> (r: bool)
        ensures
            r == (self@ == other@),
    {
        self.eq(other)
    }
}

/// One key-space of the store.
#[derive(Debug)]
pub struct AList<K, V> {
    entries: Vec<(K, V)>,
}

impl<K: View, V: View> View for AList<K, V> {
    type V = Seq<(K::V, V::V)>;

    closed spec fn view(&self) -> Seq<(K::V, V::V)> {
        self.entries@.map(|i: int, e: (K, V)| (e.0@, e.1@))
    }
}

impl<K: AssocKey, V: View> AList<K, V> {
    /// The keys are pairwise distinct; every method keeps this.
    pub open spec fn wf(&self) -> bool {
        al_distinct(self@)
    }

    pub fn new() -> (r: Self)
        ensures
            r@ == Seq::<(K::V, V::V)>::empty(),
            r.wf(),
    {
        let r = AList { entries: Vec::new() };
        proof {
            assert(r@ =~= Seq::<(K::V, V::V)>::empty());
        }
        r
    }

    pub fn len(&self) -> (r: usize)
        ensures
            r == self@.len(),
    {
        self.entries.len()
    }

    pub fn key_at(&self, i: usize) -> (r: &K)
        requires
            i < self@.len(),
        ensures
            r@ == self@[i as int].0,
    {
        &self.entries[i].0
    }

    pub fn val_at(&self, i: usize) -> (r: &V)
        requires
            i < self@.len(),
        ensures
            r@ == self@[i as int].1,
    {
        &self.entries[i].1
    }

    /// The place of the pair carrying `k`, if any: the first, and under `wf`
    /// the only one.
    fn index_of(&self, k: &K) -> (r: Option<usize>)
        ensures
            match r {
                Some(i) => i < self@.len() && self@[i as int].0 == k@ && forall|j: int|
                    0 <= j < i ==> self@[j].0 != k@,
                None => forall|j: int| 0 <= j < self@.len() ==> self@[j].0 != k@,
            },
    {
        let n = self.entries.len();
        let mut i: usize = 0;
        while i < n
            invariant
                n == self@.len(),
                i <= n,
                forall|j: int| 0 <= j < i ==> self@[j].0 != k@,
            decreases n - i,
        {
            if self.entries[i].0.same_key(k) {
                return Some(i);
            }
            i = i + 1;
        }
        None
    }

    pub fn contains_key(&self, k: &K) -> (r: bool)
        ensures
            r == (al_get(self@, k@) is Some),
    {
        match self.get(k) {
            Some(_) => true,
            None => false,
        }
    }

    pub fn get(&self, k: &K) -> (r: Option<&V>)
        ensures
            match r {
                Some(v) => al_get(self@, k@) == Some(v@),
                None => al_get(self@, k@) is None,
            },
    {
        match self.index_of(k) {
            Some(i) => {
                proof {
                    lemma_al_get_at(self@, i as int);
                }
                Some(&self.entries[i].1)
            },
            None => {
                proof {
                    lemma_al_get_none(self@, k@);
                }
                None
            },
        }
    }

    /// Write `v` at `k`; hand back the value it replaces, if any.
    pub fn set(&mut self, k: K, v: V) -> (prev: Option<V>)
        ensures
            final(self)@ == al_set(old(self)@, k@, v@),
            old(self).wf() ==> final(self).wf(),
            match prev {
                Some(p) => al_get(old(self)@, k@) == Some(p@),
                None => al_get(old(self)@, k@) is None,
            },
    {
        proof {
            if old(self).wf() {
                lemma_al_set_distinct(old(self)@, k@, v@);
            }
        }
        match self.index_of(&k) {
            Some(i) => {
                proof {
                    lemma_al_get_at(self@, i as int);
                    lemma_al_set_is_update(self@, k@, v@, i as int);
                }
                let mut pair = (k, v);
                core::mem::swap(&mut self.entries[i], &mut pair);
                proof {
                    assert(self@ =~= al_set(old(self)@, k@, v@));
                }
                Some(pair.1)
            },
            None => {
                proof {
                    lemma_al_get_none(self@, k@);
                    lemma_al_set_is_push(self@, k@, v@);
                }
                self.entries.push((k, v));
                proof {
                    assert(self@ =~= al_set(old(self)@, k@, v@));
                }
                None
            },
        }
    }

    /// Remove the pair at `k`, if any, and hand back its value.
    pub fn remove(&mut self, k: &K) -> (prev: Option<V>)
        ensures
            final(self)@ == al_remove(old(self)@, k@),
            old(self).wf() ==> final(self).wf(),
            match prev {
                Some(p) => al_get(old(self)@, k@) == Some(p@),
                None => al_get(old(self)@, k@) is None,
            },
    {
        proof {
            if old(self).wf() {
                lemma_al_remove_distinct(old(self)@, k@);
            }
        }
        match self.index_of(k) {
            Some(i) => {
                proof {
                    lemma_al_get_at(self@, i as int);
                    lemma_al_remove_is_remove(self@, k@, i as int);
                }
                let pair = self.entries.remove(i);
                proof {
                    assert(self@ =~= al_remove(old(self)@, k@));
                }
                Some(pair.1)
            },
            None => {
                proof {
                    lemma_al_get_none(self@, k@);
                    lemma_al_remove_absent(self@, k@);
                    assert(self@ =~= al_remove(self@, k@));
                }
                None
            },
        }
    }
}

impl<K: Dup, V: Dup> Dup for AList<K, V> {
    fn dup(&self) -> (r: Self)
        ensures
            r@ == self@,
    {
        let n = self.entries.len();
        let mut e: Vec<(K, V)> = Vec::new();
        let mut i: usize = 0;
        while i < n
            invariant
                i <= n,
                n == self.entries@.len(),
                e@.len() == i,
                forall|j: int|
                    0 <= j < i ==> #[trigger] e@[j].0@ == self.entries@[j].0@ && e@[j].1@
                        == self.entries@[j].1@,
            decreases n - i,
        {
            let k = self.entries[i].0.dup();
            let v = self.entries[i].1.dup();
            e.push((k, v));
            i = i + 1;
        }
        let r = AList { entries: e };
        proof {
            assert(r@ =~= self@);
        }
        r
    }
}

} // verus!
