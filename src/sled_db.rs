//! A store on `sled`, a log-structured embedded engine.
use vstd::prelude::*;
use crate::cache::{copy_bytes, MemCache};
use crate::database::Database;
use crate::error::Errors;
use crate::model::{opt_bytes, StageView};

verus! {

#[verifier::external_type_specification]
#[verifier::external_body]
pub struct ExSledDb(sled::Db);

#[verifier::external_type_specification]
#[verifier::external_body]
pub struct ExSledBatch(sled::Batch);

#[verifier::external_type_specification]
#[verifier::external_body]
pub struct ExSledError(sled::Error);

/// The writes a `sled::Batch` holds, by key; `None` marks a removal.
pub uninterp spec fn batch_writes(b: sled::Batch) -> Map<Seq<u8>, Option<Seq<u8>>>;

/// The batch with no write.
pub open spec fn no_writes() -> Map<Seq<u8>, Option<Seq<u8>>> {
    Map::empty()
}

/// Relies on sled::open: opens (or creates) the store at `path`.
#[verifier::external_body]
fn sled_open(path: &str) -> (r: Result<sled::Db, sled::Error>) {
    sled::open(path)
}

/// Relies on sled::Batch::default: a batch with no write.
#[verifier::external_body]
fn batch_new() -> (r: sled::Batch)
    ensures
        batch_writes(r) == no_writes(),
{
    sled::Batch::default()
}

/// Relies on sled::Batch::insert: records that `key` is set to `value`, replacing an
/// earlier write of that key.
#[verifier::external_body]
fn batch_insert(b: &mut sled::Batch, key: &[u8], value: Vec<u8>)
    ensures
        batch_writes(*final(b)) == batch_writes(*old(b)).insert(key@, Some(value@)),
{
    b.insert(key, value)
}

/// Relies on sled::Batch::remove: records that `key` is removed, replacing an earlier
/// write of that key.
#[verifier::external_body]
fn batch_remove(b: &mut sled::Batch, key: &[u8])
    ensures
        batch_writes(*final(b)) == batch_writes(*old(b)).insert(key@, None),
{
    b.remove(key)
}

/// Relies on sled::Tree::get: what the engine holds under `key`.
#[verifier::external_body]
fn db_get(db: &sled::Db, key: &[u8]) -> (r: Result<Option<Vec<u8>>, sled::Error>) {
    match db.get(key) {
        Ok(Some(v)) => Ok(Some(v.to_vec())),
        Ok(None) => Ok(None),
        Err(e) => Err(e),
    }
}

/// Relies on sled::Tree::insert: writes `value` under `key` in the engine.
#[verifier::external_body]
fn db_insert(db: &sled::Db, key: &[u8], value: Vec<u8>) -> (r: Result<(), sled::Error>) {
    match db.insert(key, value) {
        Ok(_) => Ok(()),
        Err(e) => Err(e),
    }
}

/// Relies on sled::Tree::remove: removes `key` from the engine.
#[verifier::external_body]
fn db_remove(db: &sled::Db, key: &[u8]) -> (r: Result<(), sled::Error>) {
    match db.remove(key) {
        Ok(_) => Ok(()),
        Err(e) => Err(e),
    }
}

/// Relies on sled::Tree::apply_batch: applies every write of `batch` atomically.
#[verifier::external_body]
fn db_apply_batch(db: &sled::Db, batch: sled::Batch) -> (r: Result<(), sled::Error>) {
    db.apply_batch(batch)
}

/// Relies on sled::Tree::flush: writes dirty buffers to disk.
#[verifier::external_body]
fn db_flush(db: &sled::Db) -> (r: Result<(), sled::Error>) {
    match db.flush() {
        Ok(_) => Ok(()),
        Err(e) => Err(e),
    }
}

/// Relies on the `Display` impl of sled::Error: its message.
#[verifier::external_body]
fn sled_error_text(e: &sled::Error) -> (r: String) {
    e.to_string()
}

/// The uniform error for a `sled` failure.
fn from_sled(e: sled::Error) -> (r: Errors) {
    let text = sled_error_text(&e);
    Errors::new(text.as_str())
}

/// A database on `sled`, with a staging cache and a deferred batch.
pub struct Sled {
    db: sled::Db,
    batch: sled::Batch,
    cache: MemCache,
    batch_on: bool,
}

impl Sled {
    /// The cache, the buffered writes and the batch flag.
    pub closed spec fn stage(&self) -> StageView {
        StageView { cache: self.cache@, pending: batch_writes(self.batch), batch_on: self.batch_on }
    }

    /// Opens the store at `dbpath`, with an empty cache and no open batch.
    pub fn new(dbpath: &str) -> (r: Result<Sled, Errors>)
        ensures
            r matches Ok(d) ==> d.stage() == StageView::initial(),
    {
        match sled_open(dbpath) {
            Ok(db) => Ok(Sled { db, batch: batch_new(), cache: MemCache::new(), batch_on: false }),
            Err(e) => Err(from_sled(e)),
        }
    }

    /// Writes the engine's dirty buffers to disk.
    pub fn flush(&self) -> (r: Result<(), Errors>) {
        match db_flush(&self.db) {
            Ok(()) => Ok(()),
            Err(e) => Err(from_sled(e)),
        }
    }

    /// What the engine itself holds under `key`, bypassing the cache and the open
    /// batch.
    pub fn read_engine(&self, key: &[u8]) -> (r: Result<Option<Vec<u8>>, Errors>) {
        match db_get(&self.db, key) {
            Ok(found) => Ok(found),
            Err(e) => Err(from_sled(e)),
        }
    }

    /// The current value of `key`: the cache's answer when it has one, else the
    /// engine's, which is then cached when it is a value.
    pub fn get(&mut self, key: &[u8]) -> (r: Result<Option<Vec<u8>>, Errors>)
        requires
            old(self).stage().wf(),
        ensures
            final(self).stage().wf(),
            old(self).stage().cache.contains(key@) ==> (r matches Ok(o) && opt_bytes(o)
                == old(self).stage().cache.lookup(key@)),
            r matches Ok(o) ==> final(self).stage() == old(self).stage().after_read(
                key@,
                opt_bytes(o),
            ),
            r is Err ==> final(self).stage() == old(self).stage(),
    {
        if self.cache.contains(key) {
            return Ok(self.cache.get(key));
        }
        match db_get(&self.db, key) {
            Ok(Some(value)) => {
                self.cache.put(key, copy_bytes(value.as_slice()));
                Ok(Some(value))
            },
            Ok(None) => Ok(None),
            Err(e) => Err(from_sled(e)),
        }
    }

    /// Makes `value` the current value of `key`: cached, then buffered inside a batch or
    /// written to the engine outside one.
    pub fn put(&mut self, key: &[u8], value: Vec<u8>) -> (r: Result<(), Errors>)
        requires
            old(self).stage().wf(),
        ensures
            final(self).stage().wf(),
            final(self).stage() == old(self).stage().after_put(key@, value@),
            old(self).stage().batch_on ==> r is Ok,
    {
        self.cache.put(key, copy_bytes(value.as_slice()));
        if self.batch_on {
            batch_insert(&mut self.batch, key, value);
            Ok(())
        } else {
            match db_insert(&self.db, key, value) {
                Ok(()) => Ok(()),
                Err(e) => Err(from_sled(e)),
            }
        }
    }

    /// Removes `key`: a tombstone is cached, then the removal is buffered inside a batch
    /// or applied to the engine outside one.
    pub fn delete(&mut self, key: &[u8]) -> (r: Result<(), Errors>)
        requires
            old(self).stage().wf(),
        ensures
            final(self).stage().wf(),
            final(self).stage() == old(self).stage().after_delete(key@),
            old(self).stage().batch_on ==> r is Ok,
    {
        self.cache.delete(key);
        if self.batch_on {
            batch_remove(&mut self.batch, key);
            Ok(())
        } else {
            match db_remove(&self.db, key) {
                Ok(()) => Ok(()),
                Err(e) => Err(from_sled(e)),
            }
        }
    }

    /// Resets the cache and opens an empty batch.
    pub fn init_batch(&mut self) -> (r: Result<(), Errors>)
        requires
            old(self).stage().wf(),
        ensures
            final(self).stage().wf(),
            final(self).stage() == old(self).stage().after_begin(),
            r is Ok,
    {
        self.batch = batch_new();
        self.cache.clear();
        self.batch_on = true;
        Ok(())
    }

    /// Closes the batch and applies its writes to the engine as one unit; outside a
    /// batch nothing is buffered and the engine is not touched.
    pub fn finish_batch(&mut self) -> (r: Result<(), Errors>)
        requires
            old(self).stage().wf(),
        ensures
            final(self).stage().wf(),
            final(self).stage() == old(self).stage().after_commit(),
            !old(self).stage().batch_on ==> r is Ok,
    {
        let was_on = self.batch_on;
        self.batch_on = false;
        let mut batch = batch_new();
        std::mem::swap(&mut self.batch, &mut batch);
        if was_on {
            match db_apply_batch(&self.db, batch) {
                Ok(()) => Ok(()),
                Err(e) => Err(from_sled(e)),
            }
        } else {
            Ok(())
        }
    }
}

impl Database for Sled {
    closed spec fn inv(&self) -> bool {
        self.stage().wf()
    }

    fn new(dbpath: &str) -> (r: Result<Sled, Errors>) {
        Sled::new(dbpath)
    }

    fn get(&mut self, key: &[u8]) -> (r: Result<Option<Vec<u8>>, Errors>) {
        Sled::get(self, key)
    }

    fn put(&mut self, key: &[u8], value: Vec<u8>) -> (r: Result<(), Errors>) {
        Sled::put(self, key, value)
    }

    fn delete(&mut self, key: &[u8]) -> (r: Result<(), Errors>) {
        Sled::delete(self, key)
    }

    fn init_batch(&mut self) -> (r: Result<(), Errors>) {
        Sled::init_batch(self)
    }

    fn finish_batch(&mut self) -> (r: Result<(), Errors>) {
        Sled::finish_batch(self)
    }
}

} // verus!
