//! Association sequences: the mathematical model shared by every key-space of
//! the store. A key-space is a sequence of (key, value) pairs with pairwise
//! distinct keys; keeping the sequence (rather than only a map) pins down the
//! iteration order, which is what makes replicas byte-identical after replay.

use vstd::prelude::*;

verus! {

/// The value at `k`: the first pair whose key equals `k`, if any.
pub open spec fn al_get<K, V>(s: Seq<(K, V)>, k: K) -> Option<V>
    decreases s.len(),
{
    if s.len() == 0 {
        None
    } else if s[0].0 == k {
        Some(s[0].1)
    } else {
        al_get(s.drop_first(), k)
    }
}

/// All keys pairwise distinct.
pub open spec fn al_distinct<K, V>(s: Seq<(K, V)>) -> bool {
    forall|i: int, j: int| 0 <= i < j < s.len() ==> s[i].0 != s[j].0
}

/// Write `v` at `k`: replace the first pair with key `k`, or append one.
pub open spec fn al_set<K, V>(s: Seq<(K, V)>, k: K, v: V) -> Seq<(K, V)>
    decreases s.len(),
{
    if s.len() == 0 {
        seq![(k, v)]
    } else if s[0].0 == k {
        s.update(0, (k, v))
    } else {
        seq![s[0]] + al_set(s.drop_first(), k, v)
    }
}

/// Remove the first pair with key `k`, if any.
pub open spec fn al_remove<K, V>(s: Seq<(K, V)>, k: K) -> Seq<(K, V)>
    decreases s.len(),
{
    if s.len() == 0 {
        s
    } else if s[0].0 == k {
        s.drop_first()
    } else {
        seq![s[0]] + al_remove(s.drop_first(), k)
    }
}

/// When no pair in the prefix of length `n` carries `k`, the lookup is decided
/// by the rest of the sequence.
pub proof fn lemma_al_get_skip<K, V>(s: Seq<(K, V)>, k: K, n: int)
    requires
        0 <= n <= s.len(),
        forall|j: int| 0 <= j < n ==> s[j].0 != k,
    ensures
        al_get(s, k) == al_get(s.skip(n), k),
    decreases n,
{
    if n > 0 {
        assert(s.drop_first().skip(n - 1) =~= s.skip(n));
        lemma_al_get_skip(s.drop_first(), k, n - 1);
    } else {
        assert(s.skip(0) =~= s);
    }
}

/// A pair at index `i` whose key is not repeated earlier decides the lookup.
pub proof fn lemma_al_get_at<K, V>(s: Seq<(K, V)>, i: int)
    requires
        0 <= i < s.len(),
        forall|j: int| 0 <= j < i ==> s[j].0 != s[i].0,
    ensures
        al_get(s, s[i].0) == Some(s[i].1),
{
    lemma_al_get_skip(s, s[i].0, i);
    assert(s.skip(i)[0] == s[i]);
}

/// When no pair at all carries `k`, the lookup is `None`.
pub proof fn lemma_al_get_none<K, V>(s: Seq<(K, V)>, k: K)
    requires
        forall|j: int| 0 <= j < s.len() ==> s[j].0 != k,
    ensures
        al_get(s, k) is None,
{
    lemma_al_get_skip(s, k, s.len() as int);
    assert(s.skip(s.len() as int) =~= Seq::<(K, V)>::empty());
}

/// What `al_set` does to every lookup: the written key reads back the new
/// value, every other key is untouched.
pub proof fn lemma_al_set_get<K, V>(s: Seq<(K, V)>, k: K, v: V, k2: K)
    ensures
        al_get(al_set(s, k, v), k2) == if k2 == k {
            Some(v)
        } else {
            al_get(s, k2)
        },
    decreases s.len(),
{
    if s.len() == 0 {
        let t = al_set(s, k, v);
        assert(t[0] == (k, v));
        if k2 != k {
            assert(t.drop_first() =~= s);
        }
    } else if s[0].0 == k {
        let t = s.update(0, (k, v));
        assert(t[0] == (k, v));
        if k2 != k {
            assert(t.drop_first() =~= s.drop_first());
        }
    } else {
        let t = seq![s[0]] + al_set(s.drop_first(), k, v);
        assert(t[0] == s[0]);
        assert(t.drop_first() =~= al_set(s.drop_first(), k, v));
        lemma_al_set_get(s.drop_first(), k, v, k2);
    }
}

/// Every pair of `al_set(s, k, v)` is `(k, v)` or a pair of `s` at the same place.
pub proof fn lemma_al_set_frame<K, V>(s: Seq<(K, V)>, k: K, v: V)
    ensures
        s.len() <= al_set(s, k, v).len() <= s.len() + 1,
        forall|j: int|
            0 <= j < al_set(s, k, v).len() ==> #[trigger] al_set(s, k, v)[j] == (k, v) || (j
                < s.len() && al_set(s, k, v)[j] == s[j]),
    decreases s.len(),
{
    if s.len() == 0 {
    } else if s[0].0 == k {
    } else {
        lemma_al_set_frame(s.drop_first(), k, v);
        let t = seq![s[0]] + al_set(s.drop_first(), k, v);
        assert forall|j: int| 0 <= j < t.len() implies #[trigger] t[j] == (k, v) || (j < s.len()
            && t[j] == s[j]) by {
            if j > 0 {
                assert(t[j] == al_set(s.drop_first(), k, v)[j - 1]);
            }
        }
    }
}

/// Writing a key keeps the keys pairwise distinct.
pub proof fn lemma_al_set_distinct<K, V>(s: Seq<(K, V)>, k: K, v: V)
    requires
        al_distinct(s),
    ensures
        al_distinct(al_set(s, k, v)),
    decreases s.len(),
{
    let t = al_set(s, k, v);
    if s.len() == 0 {
    } else if s[0].0 == k {
    } else {
        lemma_al_set_distinct(s.drop_first(), k, v);
        lemma_al_set_frame(s.drop_first(), k, v);
        let r = al_set(s.drop_first(), k, v);
        assert forall|i: int, j: int| 0 <= i < j < t.len() implies t[i].0 != t[j].0 by {
            if i == 0 {
                assert(t[j] == r[j - 1]);
                assert(r[j - 1] == (k, v) || r[j - 1] == s.drop_first()[j - 1]);
            } else {
                assert(t[i] == r[i - 1] && t[j] == r[j - 1]);
            }
        }
    }
}

/// Every pair of `al_remove(s, k)` is a pair of `s` at the same place or one
/// place later.
pub proof fn lemma_al_remove_frame<K, V>(s: Seq<(K, V)>, k: K)
    ensures
        s.len() - 1 <= al_remove(s, k).len() <= s.len(),
        forall|j: int|
            0 <= j < al_remove(s, k).len() ==> #[trigger] al_remove(s, k)[j] == s[j] || (j + 1
                < s.len() && al_remove(s, k)[j] == s[j + 1]),
    decreases s.len(),
{
    if s.len() == 0 {
    } else if s[0].0 == k {
    } else {
        lemma_al_remove_frame(s.drop_first(), k);
        let d = s.drop_first();
        let r = al_remove(d, k);
        let t = seq![s[0]] + r;
        assert(al_remove(s, k) == t);
        assert forall|j: int| 0 <= j < t.len() implies #[trigger] t[j] == s[j] || (j + 1 < s.len()
            && t[j] == s[j + 1]) by {
            if j > 0 {
                assert(t[j] == r[j - 1]);
                assert(r[j - 1] == d[j - 1] || (j < d.len() && r[j - 1] == d[j]));
                assert(d[j - 1] == s[j]);
                if j < d.len() {
                    assert(d[j] == s[j + 1]);
                }
            }
        }
    }
}

/// Removing a key keeps the keys pairwise distinct.
pub proof fn lemma_al_remove_distinct<K, V>(s: Seq<(K, V)>, k: K)
    requires
        al_distinct(s),
    ensures
        al_distinct(al_remove(s, k)),
    decreases s.len(),
{
    if s.len() == 0 {
    } else if s[0].0 == k {
    } else {
        let d = s.drop_first();
        lemma_al_remove_distinct(d, k);
        lemma_al_remove_frame(d, k);
        let r = al_remove(d, k);
        let t = seq![s[0]] + r;
        assert(al_remove(s, k) == t);
        assert forall|i: int, j: int| 0 <= i < j < t.len() implies t[i].0 != t[j].0 by {
            if i == 0 {
                assert(t[j] == r[j - 1]);
                assert(r[j - 1] == d[j - 1] || (j < d.len() && r[j - 1] == d[j]));
            } else {
                assert(t[i] == r[i - 1] && t[j] == r[j - 1]);
            }
        }
    }
}

/// What `al_remove` does to every lookup, on distinct keys: the removed key
/// reads back nothing, every other key is untouched.
pub proof fn lemma_al_remove_get<K, V>(s: Seq<(K, V)>, k: K, k2: K)
    requires
        al_distinct(s),
    ensures
        al_get(al_remove(s, k), k2) == if k2 == k {
            None::<V>
        } else {
            al_get(s, k2)
        },
    decreases s.len(),
{
    if s.len() == 0 {
        lemma_al_get_none(al_remove(s, k), k2);
    } else if s[0].0 == k {
        if k2 == k {
            assert forall|j: int| 0 <= j < s.drop_first().len() implies s.drop_first()[j].0
                != k2 by {
                assert(s.drop_first()[j] == s[j + 1]);
            }
            lemma_al_get_none(s.drop_first(), k2);
        }
    } else {
        let t = seq![s[0]] + al_remove(s.drop_first(), k);
        assert(t[0] == s[0]);
        assert(t.drop_first() =~= al_remove(s.drop_first(), k));
        lemma_al_remove_get(s.drop_first(), k, k2);
    }
}

/// A found value sits at some place of the sequence.
pub proof fn lemma_al_get_index<K, V>(s: Seq<(K, V)>, k: K)
    requires
        al_get(s, k) is Some,
    ensures
        exists|i: int| 0 <= i < s.len() && s[i] == (k, al_get(s, k)->Some_0),
    decreases s.len(),
{
    if s.len() != 0 {
        if s[0].0 == k {
            assert(s[0] == (k, al_get(s, k)->Some_0));
        } else {
            lemma_al_get_index(s.drop_first(), k);
            let i = choose|i: int|
                0 <= i < s.drop_first().len() && s.drop_first()[i] == (
                    k,
                    al_get(s.drop_first(), k)->Some_0,
                );
            assert(s[i + 1] == (k, al_get(s, k)->Some_0));
        }
    }
}

/// Where the key is present at `i` (its only occurrence), `al_set` is an
/// update in place; where it is absent, it is an append.
pub proof fn lemma_al_set_is_update<K, V>(s: Seq<(K, V)>, k: K, v: V, i: int)
    requires
        0 <= i < s.len(),
        s[i].0 == k,
        forall|j: int| 0 <= j < i ==> s[j].0 != k,
    ensures
        al_set(s, k, v) == s.update(i, (k, v)),
    decreases s.len(),
{
    if i == 0 {
    } else {
        lemma_al_set_is_update(s.drop_first(), k, v, i - 1);
        assert(seq![s[0]] + s.drop_first().update(i - 1, (k, v)) =~= s.update(i, (k, v)));
    }
}

/// Where the key is absent, `al_set` appends.
pub proof fn lemma_al_set_is_push<K, V>(s: Seq<(K, V)>, k: K, v: V)
    requires
        forall|j: int| 0 <= j < s.len() ==> s[j].0 != k,
    ensures
        al_set(s, k, v) == s.push((k, v)),
    decreases s.len(),
{
    if s.len() == 0 {
        assert(al_set(s, k, v) =~= s.push((k, v)));
    } else {
        lemma_al_set_is_push(s.drop_first(), k, v);
        assert(seq![s[0]] + s.drop_first().push((k, v)) =~= s.push((k, v)));
    }
}

/// Where the key is present at `i` (its first occurrence), `al_remove` removes
/// that place.
pub proof fn lemma_al_remove_is_remove<K, V>(s: Seq<(K, V)>, k: K, i: int)
    requires
        0 <= i < s.len(),
        s[i].0 == k,
        forall|j: int| 0 <= j < i ==> s[j].0 != k,
    ensures
        al_remove(s, k) == s.remove(i),
    decreases s.len(),
{
    if i == 0 {
        assert(al_remove(s, k) =~= s.remove(0));
    } else {
        lemma_al_remove_is_remove(s.drop_first(), k, i - 1);
        assert(seq![s[0]] + s.drop_first().remove(i - 1) =~= s.remove(i));
    }
}

/// Where the key is absent, `al_remove` changes nothing.
pub proof fn lemma_al_remove_absent<K, V>(s: Seq<(K, V)>, k: K)
    requires
        forall|j: int| 0 <= j < s.len() ==> s[j].0 != k,
    ensures
        al_remove(s, k) == s,
    decreases s.len(),
{
    if s.len() == 0 {
        assert(al_remove(s, k) =~= s);
    } else {
        lemma_al_remove_absent(s.drop_first(), k);
        assert(seq![s[0]] + s.drop_first() =~= s);
    }
}

} // verus!
