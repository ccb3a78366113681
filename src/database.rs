//! The storage contract that every backend implements.
use vstd::prelude::*;
use crate::error::Errors;

verus! {

/// A byte-keyed store that a content-addressed tree reads and writes through.
pub trait Database: Sized {
    /// The adapter's internal consistency.
    spec fn inv(&self) -> bool;

    /// Opens the store at `dbpath`.
    fn new(dbpath: &str) -> (r: Result<Self, Errors>)
        ensures
            r matches Ok(d) ==> d.inv(),
    ;

    /// The current value of `key`, if any.
    fn get(&mut self, key: &[u8]) -> (r: Result<Option<Vec<u8>>, Errors>)
        requires
            old(self).inv(),
        ensures
            final(self).inv(),
    ;

    /// Makes `value` the current value of `key`.
    fn put(&mut self, key: &[u8], value: Vec<u8>) -> (r: Result<(), Errors>)
        requires
            old(self).inv(),
        ensures
            final(self).inv(),
    ;

    /// Removes `key`; removing an absent key is no error.
    fn delete(&mut self, key: &[u8]) -> (r: Result<(), Errors>)
        requires
            old(self).inv(),
        ensures
            final(self).inv(),
    ;

    /// Resets the cache and opens a batch whose writes are deferred.
    fn init_batch(&mut self) -> (r: Result<(), Errors>)
        requires
            old(self).inv(),
        ensures
            final(self).inv(),
    ;

    /// Applies the open batch to the engine as one unit and closes it.
    fn finish_batch(&mut self) -> (r: Result<(), Errors>)
        requires
            old(self).inv(),
        ensures
            final(self).inv(),
    ;
}

} // verus!
