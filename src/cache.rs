//! The staging cache: live values and tombstones written since the last reset.
use vstd::prelude::*;
use crate::bytes::{ByteMap, ByteSet};
use crate::model::{opt_bytes, CacheView};

verus! {

/// A copy of the bytes of `s`.
pub fn copy_bytes(s: &[u8]) -> (r: Vec<u8>)
    ensures
        r@ == s@,
{
    let mut r: Vec<u8> = Vec::with_capacity(s.len());
    let mut i: usize = 0;
    while i < s.len()
        invariant
            i <= s@.len(),
            r@ == s@.subrange(0, i as int),
        decreases s@.len() - i,
    {
        r.push(s[i]);
        i = i + 1;
    }
    assert(r@ =~= s@);
    r
}

/// The staging cache of one adapter.
pub struct MemCache {
    set: ByteSet,
    map: ByteMap,
}

impl View for MemCache {
    type V = CacheView;

    closed spec fn view(&self) -> CacheView {
        CacheView { values: self.map@, tombs: self.set@ }
    }
}

impl MemCache {
    /// An empty cache.
    pub fn new() -> (r: MemCache)
        ensures
            r@ == CacheView::empty(),
    {
        MemCache { set: ByteSet::new(), map: ByteMap::new() }
    }

    /// Forgets every value and tombstone.
    pub fn clear(&mut self)
        ensures
            final(self)@ == CacheView::empty(),
    {
        self.set.clear();
        self.map.clear();
    }

    /// Whether the cache holds an authoritative answer for `key`.
    pub fn contains(&self, key: &[u8]) -> (r: bool)
        ensures
            r == self@.contains(key@),
    {
        self.set.contains(key) || self.map.contains_key(key)
    }

    /// The live value cached for `key`; absent for a tombstone or an unknown key.
    pub fn get(&self, key: &[u8]) -> (r: Option<Vec<u8>>)
        ensures
            opt_bytes(r) == self@.lookup(key@),
    {
        match self.map.get(key) {
            Some(v) => Some(copy_bytes(v.as_slice())),
            None => None,
        }
    }

    /// Records that `key` now holds `value`, lifting any tombstone on it.
    pub fn put(&mut self, key: &[u8], value: Vec<u8>)
        requires
            old(self)@.wf(),
        ensures
            final(self)@ == old(self)@.write(key@, value@),
            final(self)@.wf(),
    {
        self.map.insert(copy_bytes(key), value);
        if self.set.contains(key) {
            self.set.remove(key);
        }
        assert(self@.tombs =~= old(self)@.tombs.remove(key@));
    }

    /// Records that `key` was deleted.
    pub fn delete(&mut self, key: &[u8])
        requires
            old(self)@.wf(),
        ensures
            final(self)@ == old(self)@.erase(key@),
            final(self)@.wf(),
    {
        self.map.remove(key);
        self.set.insert(copy_bytes(key));
        assert forall|k: Seq<u8>| !(#[trigger] self@.values.contains_key(k) && self@.tombs.contains(k)) by {
            if k != key@ {
                assert(self@.values.contains_key(k) == old(self)@.values.contains_key(k));
            }
        }
    }
}

} // verus!
