use monotree_db::{Database, Sled};

fn open(name: &str) -> Sled {
    Sled::new(&format!("/tmp/monotree_db_tests/{}", name)).unwrap()
}

#[test]
fn sled_scenario_put_then_get() {
    let mut db = open("scenario_a");
    db.put(b"a", vec![1, 2, 3]).unwrap();
    assert_eq!(db.get(b"a").unwrap(), Some(vec![1, 2, 3]));
}

#[test]
fn sled_scenario_batch_visible_after_commit() {
    let mut db = open("scenario_b");
    db.init_batch().unwrap();
    db.put(b"b", vec![0]).unwrap();
    db.finish_batch().unwrap();
    db.init_batch().unwrap();
    db.put(b"b", vec![9]).unwrap();
    assert_eq!(db.get(b"b").unwrap(), Some(vec![9]));
    assert_eq!(db.read_engine(b"b").unwrap(), Some(vec![0]));
    db.finish_batch().unwrap();
    assert_eq!(db.read_engine(b"b").unwrap(), Some(vec![9]));
}

#[test]
fn sled_scenario_commit_without_begin() {
    let mut db = open("scenario_c");
    db.put(b"a", vec![1]).unwrap();
    db.finish_batch().unwrap();
    assert_eq!(db.read_engine(b"a").unwrap(), Some(vec![1]));
    assert_eq!(db.get(b"a").unwrap(), Some(vec![1]));
}

#[test]
fn sled_scenario_delete_unknown_in_batch() {
    let mut db = open("scenario_d");
    db.init_batch().unwrap();
    db.delete(b"a").unwrap();
    assert_eq!(db.get(b"a").unwrap(), None);
    assert!(db.finish_batch().is_ok());
    assert_eq!(db.read_engine(b"a").unwrap(), None);
}

#[test]
fn sled_delete_hidden_before_and_after_commit() {
    let mut db = open("tombstone");
    db.put(b"k", vec![3]).unwrap();
    db.init_batch().unwrap();
    db.put(b"k", vec![4]).unwrap();
    db.delete(b"k").unwrap();
    assert_eq!(db.get(b"k").unwrap(), None);
    assert_eq!(db.read_engine(b"k").unwrap(), Some(vec![3]));
    db.finish_batch().unwrap();
    assert_eq!(db.get(b"k").unwrap(), None);
    assert_eq!(db.read_engine(b"k").unwrap(), None);
}

#[test]
fn sled_begin_batch_rereads_engine() {
    let mut db = open("reset");
    db.put(b"r", vec![1]).unwrap();
    db.delete(b"r").unwrap();
    db.put(b"r", vec![2]).unwrap();
    db.init_batch().unwrap();
    assert_eq!(db.get(b"r").unwrap(), Some(vec![2]));
    db.put(b"r", vec![5]).unwrap();
    assert_eq!(db.get(b"r").unwrap(), Some(vec![5]));
    db.init_batch().unwrap();
    assert_eq!(db.get(b"r").unwrap(), Some(vec![2]));
    db.finish_batch().unwrap();
    assert_eq!(db.read_engine(b"r").unwrap(), Some(vec![2]));
}

#[test]
fn sled_delete_outside_batch_reaches_engine() {
    let mut db = open("direct_delete");
    db.put(b"z", vec![1]).unwrap();
    db.delete(b"z").unwrap();
    assert_eq!(db.read_engine(b"z").unwrap(), None);
    assert_eq!(db.get(b"z").unwrap(), None);
    db.flush().unwrap();
}

#[test]
fn sled_through_the_trait() {
    let mut db = <Sled as Database>::new("/tmp/monotree_db_tests/trait").unwrap();
    Database::init_batch(&mut db).unwrap();
    Database::put(&mut db, b"t", vec![5]).unwrap();
    assert_eq!(Database::get(&mut db, b"t").unwrap(), Some(vec![5]));
    Database::finish_batch(&mut db).unwrap();
    assert_eq!(db.read_engine(b"t").unwrap(), Some(vec![5]));
}
