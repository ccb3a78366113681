use monotree_db::postgres_db::bytes_from_ints;
use monotree_db::sql::{
    commit_statement, create_statement, delete_statement, select_statement, upsert_statement,
};
use monotree_db::Errors;

#[test]
fn sql_create_table() {
    assert_eq!(
        create_statement("smt"),
        "CREATE TABLE IF NOT EXISTS smt (key integer[], value integer[], PRIMARY KEY (key));"
    );
}

#[test]
fn sql_select_by_key() {
    assert_eq!(
        select_statement("smt", &[1, 20, 255]),
        "SELECT value FROM smt WHERE key = '{1,20,255}';"
    );
}

#[test]
fn sql_select_empty_key() {
    assert_eq!(select_statement("t", &[]), "SELECT value FROM t WHERE key = '{}';");
}

#[test]
fn sql_upsert_one_row() {
    let rows = vec![(vec![97], vec![1, 2, 3])];
    assert_eq!(
        upsert_statement("smt", &rows),
        "INSERT INTO smt (key, value) VALUES ('{97}', '{1,2,3}') ON CONFLICT (key) DO UPDATE SET value = EXCLUDED.value;"
    );
}

#[test]
fn sql_upsert_two_rows() {
    let rows = vec![(vec![1], vec![100]), (vec![2, 0], vec![])];
    assert_eq!(
        upsert_statement("s.t", &rows),
        "INSERT INTO s.t (key, value) VALUES ('{1}', '{100}'), ('{2,0}', '{}') ON CONFLICT (key) DO UPDATE SET value = EXCLUDED.value;"
    );
}

#[test]
fn sql_delete_keys() {
    let keys = vec![vec![7], vec![8, 9]];
    assert_eq!(
        delete_statement("smt", &keys),
        "DELETE FROM smt WHERE key IN ('{7}', '{8,9}');"
    );
}

#[test]
fn sql_commit_mixed_writes() {
    let entries = vec![(vec![1], Some(vec![2])), (vec![3], None), (vec![4], Some(vec![5, 6]))];
    assert_eq!(
        commit_statement("smt", &entries),
        "INSERT INTO smt (key, value) VALUES ('{1}', '{2}'), ('{4}', '{5,6}') ON CONFLICT (key) DO UPDATE SET value = EXCLUDED.value; DELETE FROM smt WHERE key IN ('{3}');"
    );
}

#[test]
fn sql_commit_only_deletes() {
    let entries = vec![(vec![3], None)];
    assert_eq!(commit_statement("smt", &entries), "DELETE FROM smt WHERE key IN ('{3}');");
}

#[test]
fn sql_commit_nothing() {
    let entries: Vec<(Vec<u8>, Option<Vec<u8>>)> = vec![];
    assert_eq!(commit_statement("smt", &entries), "");
}

#[test]
fn ints_to_bytes_in_range() {
    assert_eq!(bytes_from_ints(&vec![0, 9, 255]), Some(vec![0, 9, 255]));
    assert_eq!(bytes_from_ints(&vec![]), Some(vec![]));
}

#[test]
fn ints_to_bytes_out_of_range() {
    assert_eq!(bytes_from_ints(&vec![1, 256]), None);
    assert_eq!(bytes_from_ints(&vec![-1]), None);
}

#[test]
fn error_keeps_message() {
    let e = Errors::new("engine failed");
    assert_eq!(e.details(), "engine failed");
}
