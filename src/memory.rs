//! A store held in process memory, with no cache and no batching.
use vstd::prelude::*;
use crate::bytes::{no_bytes_map, ByteMap};
use crate::cache::copy_bytes;
use crate::database::Database;
use crate::error::Errors;
use crate::model::{opt_bytes, stored};

verus! {

/// A database held in a hash map.
pub struct MemoryDB {
    db: ByteMap,
}

impl View for MemoryDB {
    type V = Map<Seq<u8>, Seq<u8>>;

    closed spec fn view(&self) -> Map<Seq<u8>, Seq<u8>> {
        self.db@
    }
}

impl MemoryDB {
    /// An empty store.
    pub fn new(_dbname: &str) -> (r: MemoryDB)
        ensures
            r@ == no_bytes_map(),
    {
        MemoryDB { db: ByteMap::new() }
    }

    /// The value stored under `key`, if any.
    pub fn get(&mut self, key: &[u8]) -> (r: Result<Option<Vec<u8>>, Errors>)
        ensures
            final(self)@ == old(self)@,
            r matches Ok(o) && opt_bytes(o) == stored(old(self)@, key@),
    {
        match self.db.get(key) {
            Some(v) => Ok(Some(copy_bytes(v.as_slice()))),
            None => Ok(None),
        }
    }

    /// Stores `value` under `key`.
    pub fn put(&mut self, key: &[u8], value: Vec<u8>) -> (r: Result<(), Errors>)
        ensures
            final(self)@ == old(self)@.insert(key@, value@),
            r is Ok,
    {
        self.db.insert(copy_bytes(key), value);
        Ok(())
    }

    /// Removes `key`, if present.
    pub fn delete(&mut self, key: &[u8]) -> (r: Result<(), Errors>)
        ensures
            final(self)@ == old(self)@.remove(key@),
            r is Ok,
    {
        self.db.remove(key);
        Ok(())
    }

    /// Batches need no preparation here: every write is applied at once.
    pub fn init_batch(&mut self) -> (r: Result<(), Errors>)
        ensures
            final(self)@ == old(self)@,
            r is Ok,
    {
        Ok(())
    }

    /// Nothing is ever deferred here, so there is nothing to apply.
    pub fn finish_batch(&mut self) -> (r: Result<(), Errors>)
        ensures
            final(self)@ == old(self)@,
            r is Ok,
    {
        Ok(())
    }
}

impl Database for MemoryDB {
    open spec fn inv(&self) -> bool {
        true
    }

    fn new(dbpath: &str) -> (r: Result<MemoryDB, Errors>) {
        Ok(MemoryDB::new(dbpath))
    }

    fn get(&mut self, key: &[u8]) -> (r: Result<Option<Vec<u8>>, Errors>) {
        MemoryDB::get(self, key)
    }

    fn put(&mut self, key: &[u8], value: Vec<u8>) -> (r: Result<(), Errors>) {
        MemoryDB::put(self, key, value)
    }

    fn delete(&mut self, key: &[u8]) -> (r: Result<(), Errors>) {
        MemoryDB::delete(self, key)
    }

    fn init_batch(&mut self) -> (r: Result<(), Errors>) {
        MemoryDB::init_batch(self)
    }

    fn finish_batch(&mut self) -> (r: Result<(), Errors>) {
        MemoryDB::finish_batch(self)
    }
}

} // verus!
