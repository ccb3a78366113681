use monotree_db::cache::MemCache;
use monotree_db::{Database, MemoryDB};

#[test]
fn memory_put_then_get() {
    let mut db = MemoryDB::new("mem");
    db.put(b"a", vec![1, 2, 3]).unwrap();
    assert_eq!(db.get(b"a").unwrap(), Some(vec![1, 2, 3]));
}

#[test]
fn memory_get_unknown_key_is_absent() {
    let mut db = MemoryDB::new("mem");
    assert_eq!(db.get(b"nothing").unwrap(), None);
}

#[test]
fn memory_overwrite_keeps_last_value() {
    let mut db = MemoryDB::new("mem");
    db.put(b"k", vec![1]).unwrap();
    db.put(b"k", vec![2, 2]).unwrap();
    assert_eq!(db.get(b"k").unwrap(), Some(vec![2, 2]));
}

#[test]
fn memory_put_delete_get_is_absent() {
    let mut db = MemoryDB::new("mem");
    db.put(b"a", vec![5]).unwrap();
    db.delete(b"a").unwrap();
    assert_eq!(db.get(b"a").unwrap(), None);
}

#[test]
fn memory_delete_absent_key_succeeds() {
    let mut db = MemoryDB::new("mem");
    assert!(db.delete(b"ghost").is_ok());
    assert_eq!(db.get(b"ghost").unwrap(), None);
}

#[test]
fn memory_batches_apply_at_once() {
    let mut db = MemoryDB::new("mem");
    db.init_batch().unwrap();
    db.put(b"a", vec![9]).unwrap();
    assert_eq!(db.get(b"a").unwrap(), Some(vec![9]));
    db.finish_batch().unwrap();
    assert_eq!(db.get(b"a").unwrap(), Some(vec![9]));
}

#[test]
fn memory_through_the_trait() {
    let mut db = <MemoryDB as Database>::new("mem").unwrap();
    Database::put(&mut db, b"x", vec![7, 8]).unwrap();
    assert_eq!(Database::get(&mut db, b"x").unwrap(), Some(vec![7, 8]));
    Database::delete(&mut db, b"x").unwrap();
    assert_eq!(Database::get(&mut db, b"x").unwrap(), None);
}

#[test]
fn memory_empty_key_and_value() {
    let mut db = MemoryDB::new("mem");
    db.put(b"", vec![]).unwrap();
    assert_eq!(db.get(b"").unwrap(), Some(vec![]));
}

#[test]
fn cache_write_then_lookup() {
    let mut c = MemCache::new();
    assert!(!c.contains(b"a"));
    c.put(b"a", vec![1, 2]);
    assert!(c.contains(b"a"));
    assert_eq!(c.get(b"a"), Some(vec![1, 2]));
}

#[test]
fn cache_tombstone_is_authoritative_absence() {
    let mut c = MemCache::new();
    c.put(b"a", vec![1]);
    c.delete(b"a");
    assert!(c.contains(b"a"));
    assert_eq!(c.get(b"a"), None);
}

#[test]
fn cache_put_after_delete_lifts_tombstone() {
    let mut c = MemCache::new();
    c.delete(b"a");
    c.put(b"a", vec![4]);
    assert!(c.contains(b"a"));
    assert_eq!(c.get(b"a"), Some(vec![4]));
}

#[test]
fn cache_clear_forgets_everything() {
    let mut c = MemCache::new();
    c.put(b"a", vec![1]);
    c.delete(b"b");
    c.clear();
    assert!(!c.contains(b"a"));
    assert!(!c.contains(b"b"));
}

#[test]
fn copy_bytes_copies() {
    assert_eq!(monotree_db::cache::copy_bytes(&[3, 1, 4]), vec![3, 1, 4]);
}
