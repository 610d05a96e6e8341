//! The versioned key-value store: a persistent key to (seq, value) mapping
//! with conditional writes. A write whose `MatchSeq` precondition fails
//! performs no mutation and reports the current value instead; a write that
//! succeeds stamps the value with a fresh seq from a strictly increasing
//! counter, so a seq is never handed out twice for any key.

use vstd::prelude::*;

use crate::alist::AList;
use crate::alist::AssocKey;
use crate::assoc::al_distinct;
use crate::assoc::al_get;
use crate::assoc::al_remove;
use crate::assoc::al_set;
use crate::assoc::lemma_al_get_index;
use crate::assoc::lemma_al_remove_distinct;
use crate::assoc::lemma_al_remove_frame;
use crate::assoc::lemma_al_set_distinct;
use crate::assoc::lemma_al_set_frame;
use crate::assoc::lemma_al_set_get;
use crate::change::spec_changed;
use crate::change::Change;
use crate::change::ChangeG;
use crate::dup::Dup;
use crate::match_seq::spec_matches;
use crate::match_seq::MatchSeq;
use crate::operation::Operation;
use crate::operation::OperationG;
use crate::seqv::seq_of_g;
use crate::seqv::SeqV;
use crate::seqv::SeqVG;
use crate::state_machine::seqs_bounded;

verus! {

impl AssocKey for Vec<u8> {
    fn same_key(&self, other: &Self) -> (r: bool)
        ensures
            r == (self@ == other@),
    {
        let n = self.len();
        if n != other.len() {
            proof {
                assert(self@ != other@);
            }
            return false;
        }
        let mut i: usize = 0;
        while i < n
            invariant
                i <= n,
                n == self@.len(),
                n == other@.len(),
                forall|j: int| 0 <= j < i ==> self@[j] == other@[j],
            decreases n - i,
        {
            if self[i] != other[i] {
                return false;
            }
            i = i + 1;
        }
        proof {
            assert(self@ =~= other@);
        }
        true
    }
}

/// The mathematical image of the store: the counter and the entries in store
/// order.
#[verifier::ext_equal]
pub ghost struct KvG {
    pub seq: u64,
    pub entries: Seq<(Seq<u8>, SeqVG<Seq<u8>>)>,
}

/// What one conditional write does: nothing but a report when the precondition
/// fails; a freshly stamped update or a removal when it holds.
pub open spec fn kv_upsert(s: KvG, key: Seq<u8>, m: MatchSeq, op: OperationG<Seq<u8>>) -> (
    KvG,
    ChangeG<Seq<u8>>,
) {
    let cur = al_get(s.entries, key);
    if !spec_matches(m, seq_of_g(cur)) {
        (s, ChangeG { ident: None, prev: cur, result: cur })
    } else {
        match op {
            OperationG::Update(v) => {
                let sv = SeqVG { seq: (s.seq + 1) as u64, data: v };
                (
                    KvG { seq: (s.seq + 1) as u64, entries: al_set(s.entries, key, sv) },
                    ChangeG { ident: None, prev: cur, result: Some(sv) },
                )
            },
            OperationG::Delete => (
                KvG { seq: s.seq, entries: al_remove(s.entries, key) },
                ChangeG { ident: None, prev: cur, result: None },
            ),
        }
    }
}

/// The versioned store.
pub struct VersionedKV {
    seq: u64,
    entries: AList<Vec<u8>, SeqV<Vec<u8>>>,
}

impl View for VersionedKV {
    type V = KvG;

    closed spec fn view(&self) -> KvG {
        KvG { seq: self.seq, entries: self.entries@ }
    }
}

/// Well-formedness: distinct keys, and every stamped seq in `1 ..= seq` — so
/// the counter is fresh for the next write, and a stored seq is never zero
/// (zero stands for absence in a `MatchSeq`).
pub open spec fn kv_wf(s: KvG) -> bool {
    &&& al_distinct(s.entries)
    &&& seqs_bounded(s.entries, s.seq)
}

impl VersionedKV {
    pub open spec fn wf(&self) -> bool {
        kv_wf(self@)
    }

    pub fn new() -> (r: Self)
        ensures
            r@ == (KvG { seq: 0, entries: Seq::<(Seq<u8>, SeqVG<Seq<u8>>)>::empty() }),
            r.wf(),
    {
        let r = VersionedKV { seq: 0, entries: AList::new() };
        proof {
            assert(r@ =~= KvG { seq: 0, entries: Seq::<(Seq<u8>, SeqVG<Seq<u8>>)>::empty() });
        }
        r
    }

    /// The store-wide counter: the seq of the latest stamped write.
    pub fn last_seq(&self) -> (r: u64)
        ensures
            r == self@.seq,
    {
        self.seq
    }

    /// A local read: the current value of the key, as stamped.
    pub fn get_kv(&self, key: &Vec<u8>) -> (r: Option<SeqV<Vec<u8>>>)
        ensures
            match r {
                Option::Some(sv) => al_get(self@.entries, key@) == Some(sv@),
                Option::None => al_get(self@.entries, key@) is None,
            },
    {
        match self.entries.get(key) {
            Option::Some(sv) => Some(sv.dup()),
            Option::None => None,
        }
    }

    /// A local read of several keys at once, in their order.
    pub fn mget_kv(&self, keys: &Vec<Vec<u8>>) -> (r: Vec<Option<SeqV<Vec<u8>>>>)
        ensures
            r@.len() == keys@.len(),
            forall|i: int|
                0 <= i < keys@.len() ==> match #[trigger] r@[i] {
                    Option::Some(sv) => al_get(self@.entries, keys@[i]@) == Some(sv@),
                    Option::None => al_get(self@.entries, keys@[i]@) is None,
                },
    {
        let n = keys.len();
        let mut r: Vec<Option<SeqV<Vec<u8>>>> = Vec::new();
        let mut i: usize = 0;
        while i < n
            invariant
                i <= n,
                n == keys@.len(),
                r@.len() == i,
                forall|j: int|
                    0 <= j < i ==> match #[trigger] r@[j] {
                        Option::Some(sv) => al_get(self@.entries, keys@[j]@) == Some(sv@),
                        Option::None => al_get(self@.entries, keys@[j]@) is None,
                    },
            decreases n - i,
        {
            r.push(self.get_kv(&keys[i]));
            i = i + 1;
        }
        r
    }

    /// The conditional write. Always returns both the prior and the posterior
    /// state of the key, so a caller can tell "already existed" from
    /// "successfully created".
    pub fn upsert_kv(&mut self, key: Vec<u8>, seq: MatchSeq, value_op: Operation<Vec<u8>>) -> (r:
        Change<Vec<u8>>)
        requires
            old(self).wf(),
            old(self)@.seq <= u64::MAX - 1,
        ensures
            final(self).wf(),
            final(self)@ == kv_upsert(old(self)@, key@, seq, value_op@).0,
            r@ == kv_upsert(old(self)@, key@, seq, value_op@).1,
    {
        proof {
            lemma_kv_upsert_wf(old(self)@, key@, seq, value_op@);
        }
        let cur = self.get_kv(&key);
        let cur_seq: u64 = match &cur {
            Option::Some(sv) => sv.seq,
            Option::None => 0,
        };
        if !seq.matches(cur_seq) {
            let result = match &cur {
                Option::Some(sv) => Some(sv.dup()),
                Option::None => None,
            };
            return Change { ident: None, prev: cur, result };
        }
        match value_op {
            Operation::Update(v) => {
                let s1 = self.seq + 1;
                let stored = SeqV { seq: s1, data: v };
                let result = stored.dup();
                let _ = self.entries.set(key, stored);
                self.seq = s1;
                proof {
                    assert(self@ =~= kv_upsert(old(self)@, key@, seq, value_op@).0);
                }
                Change { ident: None, prev: cur, result: Some(result) }
            },
            Operation::Delete => {
                let _ = self.entries.remove(&key);
                proof {
                    assert(self@ =~= kv_upsert(old(self)@, key@, seq, value_op@).0);
                }
                Change { ident: None, prev: cur, result: None }
            },
        }
    }

    /// A local read of every entry whose key starts with `prefix`, in store
    /// order.
    pub fn prefix_list_kv(&self, prefix: &Vec<u8>) -> (r: Vec<(Vec<u8>, SeqV<Vec<u8>>)>)
        ensures
            spec_prefix_list(self@.entries, prefix@) == r@.map(
                |i: int, e: (Vec<u8>, SeqV<Vec<u8>>)| (e.0@, e.1@),
            ),
    {
        let n = self.entries.len();
        let mut r: Vec<(Vec<u8>, SeqV<Vec<u8>>)> = Vec::new();
        let mut i: usize = 0;
        proof {
            assert(self@.entries.take(0) =~= Seq::<(Seq<u8>, SeqVG<Seq<u8>>)>::empty());
            assert(r@.map(|j: int, e: (Vec<u8>, SeqV<Vec<u8>>)| (e.0@, e.1@)) =~= Seq::<
                (Seq<u8>, SeqVG<Seq<u8>>),
            >::empty());
        }
        while i < n
            invariant
                i <= n,
                n == self@.entries.len(),
                spec_prefix_list(self@.entries.take(i as int), prefix@) == r@.map(
                    |j: int, e: (Vec<u8>, SeqV<Vec<u8>>)| (e.0@, e.1@),
                ),
            decreases n - i,
        {
            proof {
                assert(self@.entries.take(i as int + 1).drop_last() =~= self@.entries.take(
                    i as int,
                ));
                assert(self@.entries.take(i as int + 1).last() == self@.entries[i as int]);
            }
            let key = self.entries.key_at(i);
            if bytes_have_prefix(key, prefix) {
                let pair = (key.dup(), self.entries.val_at(i).dup());
                let ghost prev = r@;
                proof {
                    assert(pair.0@ == self@.entries[i as int].0);
                    assert(pair.1@ == self@.entries[i as int].1);
                }
                r.push(pair);
                proof {
                    assert(r@.map(|j: int, e: (Vec<u8>, SeqV<Vec<u8>>)| (e.0@, e.1@)) =~= prev.map(
                        |j: int, e: (Vec<u8>, SeqV<Vec<u8>>)| (e.0@, e.1@),
                    ).push((pair.0@, pair.1@)));
                }
            }
            i = i + 1;
        }
        proof {
            assert(self@.entries.take(n as int) =~= self@.entries);
        }
        r
    }
}

/// Whether `p` is a prefix of `s`.
pub open spec fn spec_has_prefix(s: Seq<u8>, p: Seq<u8>) -> bool {
    p.len() <= s.len() && s.subrange(0, p.len() as int) == p
}

/// The entries whose key starts with the prefix, in store order.
pub open spec fn spec_prefix_list(s: Seq<(Seq<u8>, SeqVG<Seq<u8>>)>, p: Seq<u8>) -> Seq<
    (Seq<u8>, SeqVG<Seq<u8>>),
>
    decreases s.len(),
{
    if s.len() == 0 {
        s
    } else if spec_has_prefix(s.last().0, p) {
        spec_prefix_list(s.drop_last(), p).push(s.last())
    } else {
        spec_prefix_list(s.drop_last(), p)
    }
}

/// Decide whether `p` is a prefix of `s`.
pub fn bytes_have_prefix(s: &Vec<u8>, p: &Vec<u8>) -> (r: bool)
    ensures
        r == spec_has_prefix(s@, p@),
{
    let np = p.len();
    if np > s.len() {
        return false;
    }
    let mut i: usize = 0;
    while i < np
        invariant
            i <= np,
            np == p@.len(),
            np <= s@.len(),
            forall|j: int| 0 <= j < i ==> s@[j] == p@[j],
        decreases np - i,
    {
        if s[i] != p[i] {
            proof {
                assert(s@.subrange(0, p@.len() as int)[i as int] == s@[i as int]);
            }
            return false;
        }
        i = i + 1;
    }
    proof {
        assert(s@.subrange(0, p@.len() as int) =~= p@);
    }
    true
}

/// A conditional write preserves well-formedness.
pub proof fn lemma_kv_upsert_wf(s: KvG, key: Seq<u8>, m: MatchSeq, op: OperationG<Seq<u8>>)
    requires
        kv_wf(s),
        s.seq <= u64::MAX - 1,
    ensures
        kv_wf(kv_upsert(s, key, m, op).0),
{
    let cur = al_get(s.entries, key);
    if spec_matches(m, seq_of_g(cur)) {
        match op {
            OperationG::Update(v) => {
                let sv = SeqVG { seq: (s.seq + 1) as u64, data: v };
                lemma_al_set_distinct(s.entries, key, sv);
                lemma_al_set_frame(s.entries, key, sv);
            },
            OperationG::Delete => {
                lemma_al_remove_distinct(s.entries, key);
                lemma_al_remove_frame(s.entries, key);
            },
        }
    }
}

/// A write with `MatchSeq::Exact(n)` mutates the key if and only if the
/// current seq of the key equals `n` immediately before the write (an absent
/// key counting as seq 0).
pub proof fn lemma_cas_exact(s: KvG, key: Seq<u8>, n: u64, v: Seq<u8>)
    requires
        kv_wf(s),
        s.seq <= u64::MAX - 1,
    ensures
        spec_changed(kv_upsert(s, key, MatchSeq::Exact(n), OperationG::Update(v)).1) <==> seq_of_g(
            al_get(s.entries, key),
        ) == n,
{
    let cur = al_get(s.entries, key);
    if seq_of_g(cur) == n {
        if cur is Some {
            lemma_al_get_index(s.entries, key);
            let i = choose|i: int|
                0 <= i < s.entries.len() && s.entries[i] == (key, cur->Some_0);
            assert(s.entries[i].1.seq <= s.seq);
        }
    }
}

/// A successful write stamps a seq strictly above every seq the store has ever
/// handed out, so no earlier observation of any key is repeated.
pub proof fn lemma_upsert_fresh_seq(s: KvG, key: Seq<u8>, m: MatchSeq, v: Seq<u8>)
    requires
        kv_wf(s),
        s.seq <= u64::MAX - 1,
        spec_matches(m, seq_of_g(al_get(s.entries, key))),
    ensures
        kv_upsert(s, key, m, OperationG::Update(v)).1.result matches Some(sv) && forall|i: int|
            0 <= i < s.entries.len() ==> #[trigger] s.entries[i].1.seq < sv.seq,
{
}

/// One conditional write, as an element of a run.
pub ghost struct KvOpG {
    pub key: Seq<u8>,
    pub m: MatchSeq,
    pub op: OperationG<Seq<u8>>,
}

/// A run of conditional writes, applied in the order the store serialized them.
pub open spec fn kv_run(s: KvG, ops: Seq<KvOpG>) -> KvG
    decreases ops.len(),
{
    if ops.len() == 0 {
        s
    } else {
        kv_upsert(kv_run(s, ops.drop_last()), ops.last().key, ops.last().m, ops.last().op).0
    }
}

/// A run of writes keeps the store well-formed, and moves the counter up by at
/// most one per write and never down.
pub proof fn lemma_kv_run_wf(s: KvG, ops: Seq<KvOpG>)
    requires
        kv_wf(s),
        s.seq + ops.len() <= u64::MAX,
    ensures
        kv_wf(kv_run(s, ops)),
        s.seq <= kv_run(s, ops).seq <= s.seq + ops.len(),
    decreases ops.len(),
{
    if ops.len() != 0 {
        lemma_kv_run_wf(s, ops.drop_last());
        lemma_kv_upsert_wf(kv_run(s, ops.drop_last()), ops.last().key, ops.last().m, ops.last().op);
    }
}

/// A seq once observed is never handed out again: whatever run of writes
/// happens in between, the next successful write of any key stamps a seq
/// strictly above every seq any key carried before the run.
pub proof fn lemma_seq_never_repeats(s: KvG, ops: Seq<KvOpG>, key: Seq<u8>, m: MatchSeq, v: Seq<u8>)
    requires
        kv_wf(s),
        s.seq + ops.len() + 1 <= u64::MAX,
        spec_matches(m, seq_of_g(al_get(kv_run(s, ops).entries, key))),
    ensures
        kv_upsert(kv_run(s, ops), key, m, OperationG::Update(v)).1.result matches Some(sv)
            && forall|k2: Seq<u8>| seq_of_g(#[trigger] al_get(s.entries, k2)) < sv.seq,
{
    lemma_kv_run_wf(s, ops);
    let t = kv_run(s, ops);
    let sv = SeqVG { seq: (t.seq + 1) as u64, data: v };
    assert forall|k2: Seq<u8>| seq_of_g(#[trigger] al_get(s.entries, k2)) < sv.seq by {
        if al_get(s.entries, k2) is Some {
            lemma_al_get_index(s.entries, k2);
            let i = choose|i: int|
                0 <= i < s.entries.len() && s.entries[i] == (k2, al_get(s.entries, k2)->Some_0);
            assert(s.entries[i].1.seq <= s.seq);
        }
    }
}

/// The commands of a batch of creators: each tries to create the same key with
/// `Exact(0)`.
pub open spec fn kv_create_all(s: KvG, key: Seq<u8>, vs: Seq<Seq<u8>>) -> KvG
    decreases vs.len(),
{
    if vs.len() == 0 {
        s
    } else {
        kv_upsert(
            kv_create_all(s, key, vs.drop_last()),
            key,
            MatchSeq::Exact(0),
            OperationG::Update(vs.last()),
        ).0
    }
}

/// Exactly one of any number of `Exact(0)` creators of one key wins: however
/// the store serializes them, the state after all of them is the state after
/// the first alone — every later attempt fails its precondition and mutates
/// nothing.
pub proof fn lemma_one_creator_wins(s: KvG, key: Seq<u8>, vs: Seq<Seq<u8>>)
    requires
        kv_wf(s),
        s.seq <= u64::MAX - 1,
        al_get(s.entries, key) is None,
        vs.len() >= 1,
    ensures
        kv_create_all(s, key, vs) == kv_upsert(
            s,
            key,
            MatchSeq::Exact(0),
            OperationG::Update(vs[0]),
        ).0,
    decreases vs.len(),
{
    let first = kv_upsert(s, key, MatchSeq::Exact(0), OperationG::Update(vs[0])).0;
    let sv = SeqVG { seq: (s.seq + 1) as u64, data: vs[0] };
    lemma_al_set_get(s.entries, key, sv, key);
    lemma_kv_upsert_wf(s, key, MatchSeq::Exact(0), OperationG::Update(vs[0]));
    if vs.len() == 1 {
        assert(vs.drop_last() =~= Seq::<Seq<u8>>::empty());
        assert(kv_create_all(s, key, vs.drop_last()) == s);
        assert(vs.last() == vs[0]);
    } else {
        lemma_one_creator_wins(s, key, vs.drop_last());
        assert(vs.drop_last()[0] == vs[0]);
        lemma_creates_noop_after_win(first, key, vs.last());
        assert(kv_create_all(s, key, vs) == kv_upsert(
            kv_create_all(s, key, vs.drop_last()),
            key,
            MatchSeq::Exact(0),
            OperationG::Update(vs.last()),
        ).0);
    }
}

/// On a key that exists, an `Exact(0)` creation is a no-op.
proof fn lemma_creates_noop_after_win(s: KvG, key: Seq<u8>, v: Seq<u8>)
    requires
        kv_wf(s),
        al_get(s.entries, key) is Some,
    ensures
        kv_upsert(s, key, MatchSeq::Exact(0), OperationG::Update(v)).0 == s,
{
    let cur = al_get(s.entries, key);
    lemma_al_get_index(s.entries, key);
    let i = choose|i: int| 0 <= i < s.entries.len() && s.entries[i] == (key, cur->Some_0);
    assert(s.entries[i].1.seq >= 1);
}

} // verus!
