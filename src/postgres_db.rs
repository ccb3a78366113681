//! A store on a PostgreSQL table of integer-array keys and values.
use vstd::prelude::*;
use crate::cache::copy_bytes;
use crate::database::Database;
use crate::error::Errors;
use crate::model::{opt_bytes, StageView};
use crate::staging::{Lookup, Staging};
use crate::sql::{commit_statement, create_statement, delete_statement, select_statement, upsert_statement};

verus! {

#[verifier::external_type_specification]
#[verifier::external_body]
pub struct ExPgClient(postgres::Client);

#[verifier::external_type_specification]
#[verifier::external_body]
pub struct ExPgRow(postgres::Row);

#[verifier::external_type_specification]
#[verifier::external_body]
pub struct ExPgError(postgres::Error);

/// The table used when none is named.
pub const DEFAULT_TABLE: &'static str = "smt";

/// Relies on postgres::Client::connect: opens a connection without TLS.
#[verifier::external_body]
fn pg_connect(params: &str) -> (r: Result<postgres::Client, postgres::Error>) {
    postgres::Client::connect(params, postgres::NoTls)
}

/// Relies on postgres::Client::batch_execute: runs the statements of `sql` as one
/// request, which the server applies as one transaction.
#[verifier::external_body]
fn pg_batch_execute(client: &mut postgres::Client, sql: &str) -> (r: Result<(), postgres::Error>) {
    client.batch_execute(sql)
}

/// Relies on postgres::Client::query: the rows that the query `sql` returns.
#[verifier::external_body]
fn pg_query(client: &mut postgres::Client, sql: &str) -> (r: Result<Vec<postgres::Row>, postgres::Error>) {
    client.query(sql, &[])
}

/// Relies on postgres::Row::try_get: the first column as an integer array, if it is one.
#[verifier::external_body]
fn row_ints(row: &postgres::Row) -> (r: Option<Vec<i32>>) {
    row.try_get::<usize, Vec<i32>>(0).ok()
}

/// Relies on the `Display` impl of postgres::Error: its message.
#[verifier::external_body]
fn pg_error_text(e: &postgres::Error) -> (r: String) {
    e.to_string()
}

/// The uniform error for a PostgreSQL failure.
fn from_pg(e: postgres::Error) -> (r: Errors) {
    let text = pg_error_text(&e);
    Errors::new(text.as_str())
}

/// Every integer is a byte value.
pub open spec fn ints_are_bytes(s: Seq<i32>) -> bool {
    forall|i: int| 0 <= i < s.len() ==> 0 <= #[trigger] s[i] <= 255
}

/// The bytes that the integers stand for.
pub open spec fn bytes_of(s: Seq<i32>) -> Seq<u8> {
    s.map_values(|x: i32| x as u8)
}

/// The bytes stored as an integer array; `None` when an element is not a byte value.
pub fn bytes_from_ints(v: &Vec<i32>) -> (r: Option<Vec<u8>>)
    ensures
        r is Some <==> ints_are_bytes(v@),
        r matches Some(b) ==> b@ == bytes_of(v@),
{
    let mut out: Vec<u8> = Vec::with_capacity(v.len());
    let mut i: usize = 0;
    while i < v.len()
        invariant
            i <= v@.len(),
            ints_are_bytes(v@.subrange(0, i as int)),
            out@ == bytes_of(v@.subrange(0, i as int)),
        decreases v@.len() - i,
    {
        let x = v[i];
        if x < 0 || x > 255 {
            assert(!ints_are_bytes(v@)) by {
                assert(v@[i as int] == x);
            }
            return None;
        }
        out.push(x as u8);
        i = i + 1;
        assert(v@.subrange(0, i as int).drop_last() =~= v@.subrange(0, i - 1));
        assert(out@ =~= bytes_of(v@.subrange(0, i as int)));
        assert(ints_are_bytes(v@.subrange(0, i as int))) by {
            assert forall|j: int| 0 <= j < i implies 0 <= #[trigger] v@.subrange(0, i as int)[j] <= 255 by {
                if j < i - 1 {
                    assert(v@.subrange(0, i as int)[j] == v@.subrange(0, i - 1)[j]);
                }
            }
        }
    }
    assert(v@.subrange(0, v@.len() as int) =~= v@);
    Some(out)
}

/// A database on a PostgreSQL table, with a staging cache and a deferred batch.
pub struct Postgres {
    db: postgres::Client,
    table_name: String,
    stage: Staging,
}

impl Postgres {
    /// The cache, the buffered writes and the batch flag.
    pub closed spec fn stage(&self) -> StageView {
        self.stage@
    }

    /// The table the store lives in.
    pub closed spec fn table(&self) -> Seq<char> {
        self.table_name@
    }

    /// Connects with `dbpath` and creates table `table_name` when it is missing.
    pub fn with_table(dbpath: &str, table_name: &str) -> (r: Result<Postgres, Errors>)
        ensures
            r matches Ok(d) ==> d.stage() == StageView::initial() && d.table() == table_name@,
    {
        let mut db = match pg_connect(dbpath) {
            Ok(db) => db,
            Err(e) => return Err(from_pg(e)),
        };
        let create = create_statement(table_name);
        match pg_batch_execute(&mut db, create.as_str()) {
            Ok(()) => {},
            Err(e) => return Err(from_pg(e)),
        }
        Ok(Postgres { db, table_name: String::from_str(table_name), stage: Staging::new() })
    }

    /// What the table holds under `key`; a stored array that does not hold bytes reads
    /// as absent.
    fn fetch(&mut self, key: &[u8]) -> (r: Result<Option<Vec<u8>>, Errors>)
        ensures
            final(self).stage() == old(self).stage(),
            final(self).table() == old(self).table(),
    {
        let query = select_statement(self.table_name.as_str(), key);
        let rows = match pg_query(&mut self.db, query.as_str()) {
            Ok(rows) => rows,
            Err(e) => return Err(from_pg(e)),
        };
        if rows.len() == 0 {
            return Ok(None);
        }
        match row_ints(&rows[0]) {
            Some(ints) => Ok(bytes_from_ints(&ints)),
            None => Ok(None),
        }
    }

    /// The current value of `key`: the cache's answer when it has one, else the
    /// table's, which is then cached when it is a value.
    pub fn get(&mut self, key: &[u8]) -> (r: Result<Option<Vec<u8>>, Errors>)
        requires
            old(self).stage().wf(),
        ensures
            final(self).stage().wf(),
            final(self).table() == old(self).table(),
            old(self).stage().cache.contains(key@) ==> (r matches Ok(o) && opt_bytes(o)
                == old(self).stage().cache.lookup(key@)),
            r matches Ok(o) ==> final(self).stage() == old(self).stage().after_read(
                key@,
                opt_bytes(o),
            ),
            r is Err ==> final(self).stage() == old(self).stage(),
    {
        match self.stage.lookup(key) {
            Lookup::Cached(o) => Ok(o),
            Lookup::Miss => match self.fetch(key) {
                Ok(found) => {
                    self.stage.record_read(key, &found);
                    Ok(found)
                },
                Err(e) => Err(e),
            },
        }
    }

    /// Makes `value` the current value of `key`: cached, then buffered inside a batch or
    /// upserted into the table outside one.
    pub fn put(&mut self, key: &[u8], value: Vec<u8>) -> (r: Result<(), Errors>)
        requires
            old(self).stage().wf(),
        ensures
            final(self).stage().wf(),
            final(self).table() == old(self).table(),
            final(self).stage() == old(self).stage().after_put(key@, value@),
            old(self).stage().batch_on ==> r is Ok,
    {
        if !self.stage.record_put(key, value.as_slice()) {
            return Ok(());
        }
        let mut rows: Vec<(Vec<u8>, Vec<u8>)> = Vec::new();
        rows.push((copy_bytes(key), value));
        let stmt = upsert_statement(self.table_name.as_str(), &rows);
        match pg_batch_execute(&mut self.db, stmt.as_str()) {
            Ok(()) => Ok(()),
            Err(e) => Err(from_pg(e)),
        }
    }

    /// Removes `key`: a tombstone is cached, then the removal is buffered inside a batch
    /// or applied to the table outside one.
    pub fn delete(&mut self, key: &[u8]) -> (r: Result<(), Errors>)
        requires
            old(self).stage().wf(),
        ensures
            final(self).stage().wf(),
            final(self).table() == old(self).table(),
            final(self).stage() == old(self).stage().after_delete(key@),
            old(self).stage().batch_on ==> r is Ok,
    {
        if !self.stage.record_delete(key) {
            return Ok(());
        }
        let mut keys: Vec<Vec<u8>> = Vec::new();
        keys.push(copy_bytes(key));
        let stmt = delete_statement(self.table_name.as_str(), &keys);
        match pg_batch_execute(&mut self.db, stmt.as_str()) {
            Ok(()) => Ok(()),
            Err(e) => Err(from_pg(e)),
        }
    }

    /// Resets the cache and opens an empty batch.
    pub fn init_batch(&mut self) -> (r: Result<(), Errors>)
        requires
            old(self).stage().wf(),
        ensures
            final(self).stage().wf(),
            final(self).table() == old(self).table(),
            final(self).stage() == old(self).stage().after_begin(),
            r is Ok,
    {
        self.stage.begin();
        Ok(())
    }

    /// Closes the batch and sends its writes as one script, which the server applies as
    /// one transaction; with nothing buffered the table is not touched.
    pub fn finish_batch(&mut self) -> (r: Result<(), Errors>)
        requires
            old(self).stage().wf(),
        ensures
            final(self).stage().wf(),
            final(self).table() == old(self).table(),
            final(self).stage() == old(self).stage().after_commit(),
            old(self).stage().pending.dom().len() == 0 ==> r is Ok,
    {
        let entries = self.stage.take_batch();
        if entries.len() == 0 {
            return Ok(());
        }
        let script = commit_statement(self.table_name.as_str(), &entries);
        match pg_batch_execute(&mut self.db, script.as_str()) {
            Ok(()) => Ok(()),
            Err(e) => Err(from_pg(e)),
        }
    }
}

impl Database for Postgres {
    closed spec fn inv(&self) -> bool {
        self.stage().wf()
    }

    fn new(dbpath: &str) -> (r: Result<Postgres, Errors>) {
        Postgres::with_table(dbpath, DEFAULT_TABLE)
    }

    fn get(&mut self, key: &[u8]) -> (r: Result<Option<Vec<u8>>, Errors>) {
        Postgres::get(self, key)
    }

    fn put(&mut self, key: &[u8], value: Vec<u8>) -> (r: Result<(), Errors>) {
        Postgres::put(self, key, value)
    }

    fn delete(&mut self, key: &[u8]) -> (r: Result<(), Errors>) {
        Postgres::delete(self, key)
    }

    fn init_batch(&mut self) -> (r: Result<(), Errors>) {
        Postgres::init_batch(self)
    }

    fn finish_batch(&mut self) -> (r: Result<(), Errors>) {
        Postgres::finish_batch(self)
    }
}

} // verus!
