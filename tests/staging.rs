use monotree_db::{Lookup, Staging};

#[test]
fn staging_miss_before_anything_is_written() {
    let s = Staging::new();
    assert!(matches!(s.lookup(b"a"), Lookup::Miss));
    assert!(!s.batch_on());
}

#[test]
fn staging_write_through_outside_batch() {
    let mut s = Staging::new();
    assert!(s.record_put(b"a", &[1, 2, 3]));
    match s.lookup(b"a") {
        Lookup::Cached(v) => assert_eq!(v, Some(vec![1, 2, 3])),
        Lookup::Miss => panic!("expected a cached value"),
    }
    assert!(s.take_batch().is_empty());
}

#[test]
fn staging_batch_defers_and_keeps_last_write() {
    let mut s = Staging::new();
    s.begin();
    assert!(s.batch_on());
    assert!(!s.record_put(b"a", &[9]));
    assert!(!s.record_put(b"a", &[10]));
    assert!(!s.record_delete(b"b"));
    match s.lookup(b"a") {
        Lookup::Cached(v) => assert_eq!(v, Some(vec![10])),
        Lookup::Miss => panic!("expected a cached value"),
    }
    let mut writes = s.take_batch();
    writes.sort();
    assert_eq!(writes, vec![(b"a".to_vec(), Some(vec![10])), (b"b".to_vec(), None)]);
    assert!(!s.batch_on());
}

#[test]
fn staging_delete_gives_authoritative_absence() {
    let mut s = Staging::new();
    s.begin();
    s.record_put(b"a", &[1]);
    s.record_delete(b"a");
    assert!(matches!(s.lookup(b"a"), Lookup::Cached(None)));
}

#[test]
fn staging_begin_resets_cache() {
    let mut s = Staging::new();
    s.record_put(b"a", &[1]);
    s.record_delete(b"b");
    s.begin();
    assert!(matches!(s.lookup(b"a"), Lookup::Miss));
    assert!(matches!(s.lookup(b"b"), Lookup::Miss));
}

#[test]
fn staging_read_of_engine_value_is_cached() {
    let mut s = Staging::new();
    s.record_read(b"a", &Some(vec![6]));
    match s.lookup(b"a") {
        Lookup::Cached(v) => assert_eq!(v, Some(vec![6])),
        Lookup::Miss => panic!("expected a cached value"),
    }
    s.record_read(b"b", &None);
    assert!(matches!(s.lookup(b"b"), Lookup::Miss));
}

#[test]
fn staging_commit_without_begin_hands_out_nothing() {
    let mut s = Staging::new();
    s.record_put(b"a", &[1]);
    assert!(s.take_batch().is_empty());
    match s.lookup(b"a") {
        Lookup::Cached(v) => assert_eq!(v, Some(vec![1])),
        Lookup::Miss => panic!("expected a cached value"),
    }
}

#[test]
fn staging_delete_of_unknown_key_in_batch() {
    let mut s = Staging::new();
    s.begin();
    assert!(!s.record_delete(b"a"));
    assert!(matches!(s.lookup(b"a"), Lookup::Cached(None)));
    assert_eq!(s.take_batch(), vec![(b"a".to_vec(), None)]);
}
