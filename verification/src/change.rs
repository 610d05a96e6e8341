//! The uniform result of applying a command: the state of the touched entry
//! before and after. `prev == None, result == Some` is a creation;
//! `prev == Some, result == None` a deletion; both `Some` with different seqs
//! an update; both `Some` with the same seq a no-op reporting existing state.

use vstd::prelude::*;

use crate::catalog::DatabaseMeta;
use crate::catalog::DatabaseMetaG;
use crate::catalog::Node;
use crate::catalog::NodeG;
use crate::catalog::TableMeta;
use crate::catalog::TableMetaG;
use crate::seqv::SeqV;
use crate::seqv::SeqVG;

verus! {

#[derive(Debug)]
pub struct Change<V> {
    /// The id of the touched object, where the command allocates or resolves one.
    pub ident: Option<u64>,
    pub prev: Option<SeqV<V>>,
    pub result: Option<SeqV<V>>,
}

/// The mathematical image of a `Change`.
#[verifier::ext_equal]
pub ghost struct ChangeG<D> {
    pub ident: Option<u64>,
    pub prev: Option<SeqVG<D>>,
    pub result: Option<SeqVG<D>>,
}

impl<V: View> View for Change<V> {
    type V = ChangeG<V::V>;

    open spec fn view(&self) -> ChangeG<V::V> {
        ChangeG {
            ident: self.ident,
            prev: match self.prev {
                Option::None => None,
                Option::Some(p) => Some(p@),
            },
            result: match self.result {
                Option::None => None,
                Option::Some(p) => Some(p@),
            },
        }
    }
}

/// Whether a command mutated its entry. The store never hands out a seq twice
/// for one key, so comparing presence and seq decides it.
pub open spec fn spec_changed<D>(c: ChangeG<D>) -> bool {
    match (c.prev, c.result) {
        (Option::None, Option::None) => false,
        (Option::Some(a), Option::Some(b)) => a.seq != b.seq,
        _ => true,
    }
}

impl<V: View> Change<V> {
    pub fn changed(&self) -> (r: bool)
        ensures
            r == spec_changed(self@),
    {
        match (&self.prev, &self.result) {
            (Option::None, Option::None) => false,
            (Option::Some(a), Option::Some(b)) => a.seq != b.seq,
            _ => true,
        }
    }

    /// The before and after states, consuming the change.
    pub fn unpack(self) -> (r: (Option<SeqV<V>>, Option<SeqV<V>>))
        ensures
            self@.prev == match r.0 {
                Option::None => None::<SeqVG<V::V>>,
                Option::Some(p) => Some(p@),
            },
            self@.result == match r.1 {
                Option::None => None::<SeqVG<V::V>>,
                Option::Some(p) => Some(p@),
            },
    {
        (self.prev, self.result)
    }

    /// The before and after data, the seqs dropped.
    pub fn unpack_data(self) -> (r: (Option<V>, Option<V>))
        ensures
            match r.0 {
                Option::None => self@.prev is None,
                Option::Some(d) => self@.prev is Some && self@.prev->Some_0.data == d@,
            },
            match r.1 {
                Option::None => self@.result is None,
                Option::Some(d) => self@.result is Some && self@.result->Some_0.data == d@,
            },
    {
        let p = match self.prev {
            Option::None => None,
            Option::Some(sv) => Some(sv.data),
        };
        let q = match self.result {
            Option::None => None,
            Option::Some(sv) => Some(sv.data),
        };
        (p, q)
    }
}

/// What applying one command produced, as returned through the write path.
#[derive(Debug)]
pub enum AppliedState {
    DatabaseMeta(Change<DatabaseMeta>),
    TableMeta(Change<TableMeta>),
    Node(Change<Node>),
}

/// The mathematical image of an `AppliedState`.
pub ghost enum AppliedStateG {
    DatabaseMeta(ChangeG<DatabaseMetaG>),
    TableMeta(ChangeG<TableMetaG>),
    Node(ChangeG<NodeG>),
}

impl View for AppliedState {
    type V = AppliedStateG;

    open spec fn view(&self) -> AppliedStateG {
        match self {
            AppliedState::DatabaseMeta(c) => AppliedStateG::DatabaseMeta(c@),
            AppliedState::TableMeta(c) => AppliedStateG::TableMeta(c@),
            AppliedState::Node(c) => AppliedStateG::Node(c@),
        }
    }
}

/// `spec_changed` over whatever kind of change was applied.
pub open spec fn spec_applied_changed(a: AppliedStateG) -> bool {
    match a {
        AppliedStateG::DatabaseMeta(c) => spec_changed(c),
        AppliedStateG::TableMeta(c) => spec_changed(c),
        AppliedStateG::Node(c) => spec_changed(c),
    }
}

impl AppliedState {
    pub fn changed(&self) -> (r: bool)
        ensures
            r == spec_applied_changed(self@),
    {
        match self {
            AppliedState::DatabaseMeta(c) => c.changed(),
            AppliedState::TableMeta(c) => c.changed(),
            AppliedState::Node(c) => c.changed(),
        }
    }
}

} // verus!
