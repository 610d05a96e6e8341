use vstd::prelude::*;

use crate::seqv::seq_of;
use crate::seqv::SeqV;

verus! {

/// The precondition of a conditional write, compared against the current
/// sequence number of the key (0 when the key is absent).
#[derive(Clone, Copy, Debug, PartialEq, Eq, Structural)]
pub enum MatchSeq {
    /// Matches any state of the key.
    Any,
    /// The current seq must equal this value; `Exact(0)` means "must not exist".
    Exact(u64),
    /// The current seq must be greater than or equal to this value.
    GE(u64),
}

/// What a `MatchSeq` precondition means, over the current seq of the key.
pub open spec fn spec_matches(m: MatchSeq, seq: u64) -> bool {
    match m {
        MatchSeq::Any => true,
        MatchSeq::Exact(s) => seq == s,
        MatchSeq::GE(s) => seq >= s,
    }
}

impl MatchSeq {
    /// Decide the precondition against the current seq of the key.
    pub fn matches(self, seq: u64) -> (r: bool)
        ensures
            r == spec_matches(self, seq),
    {
        match self {
            MatchSeq::Any => true,
            MatchSeq::Exact(s) => seq == s,
            MatchSeq::GE(s) => seq >= s,
        }
    }

    /// Decide the precondition against the current value of the key,
    /// an absent key counting as seq 0.
    pub fn match_seq<T>(self, sv: &Option<SeqV<T>>) -> (r: bool)
        ensures
            r == spec_matches(self, seq_of(*sv)),
    {
        let cur: u64 = match sv {
            Option::None => 0,
            Option::Some(s) => s.seq,
        };
        self.matches(cur)
    }
}

} // verus!
