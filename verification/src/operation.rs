//! What a conditional write does to the key once its precondition holds.

use vstd::prelude::*;

verus! {

/// A catalog object id.
pub type MetaId = u64;

/// A catalog object version: the seq of the `SeqV` that carries it.
pub type MetaVersion = u64;

/// Combined with a `MatchSeq` precondition this gives full compare-and-swap
/// semantics: compare-seq-and-swap, compare-seq-and-delete, unconditional
/// upsert, unconditional delete.
#[derive(Debug, PartialEq, Eq)]
pub enum Operation<T> {
    Update(T),
    Delete,
}

/// The mathematical image of an `Operation`.
pub ghost enum OperationG<D> {
    Update(D),
    Delete,
}

impl<T: View> View for Operation<T> {
    type V = OperationG<T::V>;

    open spec fn view(&self) -> OperationG<T::V> {
        match self {
            Operation::Update(t) => OperationG::Update(t@),
            Operation::Delete => OperationG::Delete,
        }
    }
}

} // verus!
