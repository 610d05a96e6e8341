//! The versioned KV store: conditional writes and reads.

use databend::change::Change;
use databend::kv::VersionedKV;
use databend::match_seq::MatchSeq;
use databend::operation::Operation;

fn key(s: &str) -> Vec<u8> {
    s.as_bytes().to_vec()
}

#[test]
fn test_exact_zero_creates_once() {
    let mut kv = VersionedKV::new();

    // The first Exact(0) creator wins.
    let c1 = kv.upsert_kv(key("k"), MatchSeq::Exact(0), Operation::Update(b"a".to_vec()));
    assert!(c1.changed());
    assert!(c1.prev.is_none());
    let first = c1.result.unwrap();
    assert_eq!(first.seq, 1);
    assert_eq!(first.data, b"a".to_vec());

    // Every later Exact(0) creator fails and changes nothing.
    let c2 = kv.upsert_kv(key("k"), MatchSeq::Exact(0), Operation::Update(b"b".to_vec()));
    assert!(!c2.changed());
    assert_eq!(c2.prev.as_ref().unwrap().seq, 1);
    assert_eq!(c2.prev.as_ref().unwrap().data, b"a".to_vec());
    assert_eq!(c2.result.unwrap().data, b"a".to_vec());

    let read = kv.get_kv(&key("k")).unwrap();
    assert_eq!(read.seq, 1);
    assert_eq!(read.data, b"a".to_vec());
}

#[test]
fn test_exact_matches_current_seq_only() {
    let mut kv = VersionedKV::new();
    kv.upsert_kv(key("k"), MatchSeq::Any, Operation::Update(b"v1".to_vec()));
    let cur = kv.get_kv(&key("k")).unwrap().seq;

    // A stale seq writes nothing.
    let stale = kv.upsert_kv(key("k"), MatchSeq::Exact(cur + 1), Operation::Update(b"v2".to_vec()));
    assert!(!stale.changed());
    assert_eq!(kv.get_kv(&key("k")).unwrap().data, b"v1".to_vec());

    // The current seq writes, and the seq strictly grows.
    let fresh = kv.upsert_kv(key("k"), MatchSeq::Exact(cur), Operation::Update(b"v2".to_vec()));
    assert!(fresh.changed());
    let after = kv.get_kv(&key("k")).unwrap();
    assert_eq!(after.data, b"v2".to_vec());
    assert!(after.seq > cur);
}

#[test]
fn test_ge_match_and_delete() {
    let mut kv = VersionedKV::new();
    kv.upsert_kv(key("k"), MatchSeq::Any, Operation::Update(b"v1".to_vec()));
    let cur = kv.get_kv(&key("k")).unwrap().seq;

    // GE above the current seq fails.
    let miss = kv.upsert_kv(key("k"), MatchSeq::GE(cur + 1), Operation::Update(b"v2".to_vec()));
    assert!(!miss.changed());

    // GE at the current seq deletes.
    let del: Change<Vec<u8>> = kv.upsert_kv(key("k"), MatchSeq::GE(cur), Operation::Delete);
    assert!(del.changed());
    assert!(del.result.is_none());
    assert_eq!(del.prev.unwrap().data, b"v1".to_vec());
    assert!(kv.get_kv(&key("k")).is_none());

    // Deleting an absent key is a no-op that reports absence on both sides.
    let noop = kv.upsert_kv(key("k"), MatchSeq::Any, Operation::Delete);
    assert!(!noop.changed());
    assert!(noop.prev.is_none());
    assert!(noop.result.is_none());
}

#[test]
fn test_seq_not_reused_across_delete() {
    let mut kv = VersionedKV::new();
    kv.upsert_kv(key("k"), MatchSeq::Any, Operation::Update(b"v1".to_vec()));
    let s1 = kv.get_kv(&key("k")).unwrap().seq;
    kv.upsert_kv(key("k"), MatchSeq::Any, Operation::Delete);
    let c = kv.upsert_kv(key("k"), MatchSeq::Exact(0), Operation::Update(b"v2".to_vec()));
    assert!(c.changed());
    let s2 = kv.get_kv(&key("k")).unwrap().seq;
    assert!(s2 > s1, "a recreated key never repeats an observed seq");
}

#[test]
fn test_mget_and_prefix_list() {
    let mut kv = VersionedKV::new();
    kv.upsert_kv(key("a/1"), MatchSeq::Any, Operation::Update(b"x".to_vec()));
    kv.upsert_kv(key("a/2"), MatchSeq::Any, Operation::Update(b"y".to_vec()));
    kv.upsert_kv(key("b/1"), MatchSeq::Any, Operation::Update(b"z".to_vec()));

    let got = kv.mget_kv(&vec![key("a/2"), key("missing"), key("b/1")]);
    assert_eq!(got.len(), 3);
    assert_eq!(got[0].as_ref().unwrap().data, b"y".to_vec());
    assert!(got[1].is_none());
    assert_eq!(got[2].as_ref().unwrap().data, b"z".to_vec());

    let listed = kv.prefix_list_kv(&key("a/"));
    assert_eq!(listed.len(), 2);
    assert_eq!(listed[0].0, key("a/1"));
    assert_eq!(listed[0].1.data, b"x".to_vec());
    assert_eq!(listed[1].0, key("a/2"));
    assert_eq!(listed[1].1.data, b"y".to_vec());
}

#[test]
fn test_prefix_edges_and_last_seq() {
    let mut kv = VersionedKV::new();
    assert_eq!(kv.last_seq(), 0);
    kv.upsert_kv(key("ab"), MatchSeq::Any, Operation::Update(b"1".to_vec()));
    kv.upsert_kv(key("abc"), MatchSeq::Any, Operation::Update(b"2".to_vec()));
    assert_eq!(kv.last_seq(), 2);

    // A key is a prefix of itself; the empty prefix lists everything.
    assert_eq!(kv.prefix_list_kv(&key("abc")).len(), 1);
    assert_eq!(kv.prefix_list_kv(&key("")).len(), 2);
    assert_eq!(kv.prefix_list_kv(&key("abcd")).len(), 0);
}
