//! The staging state shared by adapters whose engine offers no batch of its own: the
//! cache, the buffered writes and the batch flag. Each operation records its effect and
//! tells the adapter what, if anything, to do to the engine.
use vstd::prelude::*;
use crate::bytes::{pending_contents, PendingMap};
use crate::cache::{copy_bytes, MemCache};
use crate::model::{opt_bytes, StageView};

verus! {

/// How a read is answered.
pub enum Lookup {
    /// The cache holds an authoritative answer: a value, or a deletion.
    Cached(Option<Vec<u8>>),
    /// The cache knows nothing of the key: the engine must be asked.
    Miss,
}

/// The cache, the writes deferred by the open batch, and whether a batch is open.
pub struct Staging {
    cache: MemCache,
    pending: PendingMap,
    batch_on: bool,
}

impl View for Staging {
    type V = StageView;

    closed spec fn view(&self) -> StageView {
        StageView { cache: self.cache@, pending: pending_contents(self.pending), batch_on: self.batch_on }
    }
}

impl Staging {
    /// An empty cache and no open batch.
    pub fn new() -> (r: Staging)
        ensures
            r@ == StageView::initial(),
    {
        Staging { cache: MemCache::new(), pending: PendingMap::new(), batch_on: false }
    }

    /// Whether a batch is open.
    pub fn batch_on(&self) -> (r: bool)
        ensures
            r == self@.batch_on,
    {
        self.batch_on
    }

    /// The cache's answer for `key`, if it has one.
    pub fn lookup(&self, key: &[u8]) -> (r: Lookup)
        ensures
            match r {
                Lookup::Cached(o) => self@.cache.contains(key@) && opt_bytes(o) == self@.cache.lookup(
                    key@,
                ),
                Lookup::Miss => !self@.cache.contains(key@),
            },
    {
        if self.cache.contains(key) {
            Lookup::Cached(self.cache.get(key))
        } else {
            Lookup::Miss
        }
    }

    /// Records what the engine answered for `key` after a miss: a value is cached, an
    /// absence is not.
    pub fn record_read(&mut self, key: &[u8], found: &Option<Vec<u8>>)
        requires
            old(self)@.wf(),
        ensures
            final(self)@.wf(),
            final(self)@ == old(self)@.after_read(key@, opt_bytes(*found)),
    {
        if self.cache.contains(key) {
            return;
        }
        match found {
            Some(v) => self.cache.put(key, copy_bytes(v.as_slice())),
            None => {},
        }
    }

    /// Records `put(key, value)`; the result says whether the engine must be written
    /// now, which is so exactly when no batch is open.
    pub fn record_put(&mut self, key: &[u8], value: &[u8]) -> (write_through: bool)
        requires
            old(self)@.wf(),
        ensures
            final(self)@.wf(),
            final(self)@ == old(self)@.after_put(key@, value@),
            write_through == !old(self)@.batch_on,
    {
        self.cache.put(key, copy_bytes(value));
        if self.batch_on {
            self.pending.insert(copy_bytes(key), Some(copy_bytes(value)));
            false
        } else {
            true
        }
    }

    /// Records `delete(key)`; the result says whether the engine must be written now,
    /// which is so exactly when no batch is open.
    pub fn record_delete(&mut self, key: &[u8]) -> (write_through: bool)
        requires
            old(self)@.wf(),
        ensures
            final(self)@.wf(),
            final(self)@ == old(self)@.after_delete(key@),
            write_through == !old(self)@.batch_on,
    {
        self.cache.delete(key);
        if self.batch_on {
            self.pending.insert(copy_bytes(key), None);
            false
        } else {
            true
        }
    }

    /// Resets the cache and opens an empty batch, discarding anything still buffered.
    pub fn begin(&mut self)
        requires
            old(self)@.wf(),
        ensures
            final(self)@.wf(),
            final(self)@ == old(self)@.after_begin(),
    {
        self.pending = PendingMap::new();
        self.cache.clear();
        self.batch_on = true;
    }

    /// Closes the batch and hands out its writes, each key once with its last write, to
    /// be applied to the engine as one unit.
    pub fn take_batch(&mut self) -> (r: Vec<(Vec<u8>, Option<Vec<u8>>)>)
        requires
            old(self)@.wf(),
        ensures
            final(self)@.wf(),
            final(self)@ == old(self)@.after_commit(),
            r@.len() == old(self)@.pending.dom().len(),
            forall|i: int|
                0 <= i < r@.len() ==> #[trigger] old(self)@.pending.contains_key(r@[i].0@)
                    && old(self)@.pending[r@[i].0@] == opt_bytes(r@[i].1),
            forall|i: int, j: int| 0 <= i < j < r@.len() ==> #[trigger] r@[i].0@ != #[trigger] r@[j].0@,
            forall|k: Seq<u8>| #[trigger] old(self)@.pending.contains_key(k) ==> exists|i: int|
                0 <= i < r@.len() && r@[i].0@ == k,
    {
        self.batch_on = false;
        let ghost before = old(self)@.pending;
        assert(before == pending_contents(old(self).pending));
        let r = self.pending.take_entries();
        assert forall|i: int| 0 <= i < r@.len() implies #[trigger] before.contains_key(r@[i].0@)
            && before[r@[i].0@] == opt_bytes(r@[i].1) by {
            assert(pending_contents(old(self).pending).contains_key(r@[i].0@));
        }
        assert forall|k: Seq<u8>| #[trigger] before.contains_key(k) implies exists|i: int|
            0 <= i < r@.len() && r@[i].0@ == k by {
            assert(pending_contents(old(self).pending).contains_key(k));
        }
        r
    }
}

} // verus!
