//! Byte-keyed collections backed by `hashbrown`.
use vstd::prelude::*;

verus! {

/// A map from byte keys to byte values.
#[verifier::external_body]
pub struct ByteMap {
    inner: hashbrown::HashMap<Vec<u8>, Vec<u8>>,
}

/// A set of byte keys.
#[verifier::external_body]
pub struct ByteSet {
    inner: hashbrown::HashSet<Vec<u8>>,
}

/// Writes deferred by an open batch: a value for a key, or `None` for its removal.
#[verifier::external_body]
pub struct PendingMap {
    inner: hashbrown::HashMap<Vec<u8>, Option<Vec<u8>>>,
}

/// What a `PendingMap` holds.
pub uninterp spec fn pending_contents(m: PendingMap) -> Map<Seq<u8>, Option<Seq<u8>>>;

/// The pending map with no entry.
pub open spec fn no_pending() -> Map<Seq<u8>, Option<Seq<u8>>> {
    Map::empty()
}

/// The byte sequence an optional vector holds.
pub open spec fn opt_bytes(o: Option<Vec<u8>>) -> Option<Seq<u8>> {
    match o {
        Some(v) => Some(v@),
        None => None,
    }
}

/// What a `ByteMap` holds.
pub uninterp spec fn byte_map_contents(m: ByteMap) -> Map<Seq<u8>, Seq<u8>>;

/// What a `ByteSet` holds.
pub uninterp spec fn byte_set_contents(s: ByteSet) -> Set<Seq<u8>>;

/// The map with no entry.
pub open spec fn no_bytes_map() -> Map<Seq<u8>, Seq<u8>> {
    Map::empty()
}

/// The set with no member.
pub open spec fn no_bytes_set() -> Set<Seq<u8>> {
    Set::empty()
}

impl View for ByteMap {
    type V = Map<Seq<u8>, Seq<u8>>;

    open spec fn view(&self) -> Map<Seq<u8>, Seq<u8>> {
        byte_map_contents(*self)
    }
}

impl View for ByteSet {
    type V = Set<Seq<u8>>;

    open spec fn view(&self) -> Set<Seq<u8>> {
        byte_set_contents(*self)
    }
}

impl ByteMap {
    /// Relies on hashbrown::HashMap::new: the new map is empty.
    #[verifier::external_body]
    pub(crate) fn new() -> (r: ByteMap)
        ensures
            byte_map_contents(r) == no_bytes_map(),
    {
        ByteMap { inner: hashbrown::HashMap::new() }
    }

    /// Relies on hashbrown::HashMap::get: the value stored under the key, if any.
    #[verifier::external_body]
    pub(crate) fn get(&self, key: &[u8]) -> (r: Option<&Vec<u8>>)
        ensures
            match r {
                Some(v) => byte_map_contents(*self).contains_key(key@) && byte_map_contents(*self)[key@] == v@,
                None => !byte_map_contents(*self).contains_key(key@),
            },
    {
        self.inner.get(key)
    }

    /// Relies on hashbrown::HashMap::contains_key.
    #[verifier::external_body]
    pub(crate) fn contains_key(&self, key: &[u8]) -> (r: bool)
        ensures
            r == byte_map_contents(*self).contains_key(key@),
    {
        self.inner.contains_key(key)
    }

    /// Relies on hashbrown::HashMap::insert: the key now maps to the value, other keys
    /// are untouched.
    #[verifier::external_body]
    pub(crate) fn insert(&mut self, key: Vec<u8>, value: Vec<u8>)
        ensures
            byte_map_contents(*final(self)) == byte_map_contents(*old(self)).insert(key@, value@),
    {
        self.inner.insert(key, value);
    }

    /// Relies on hashbrown::HashMap::remove: the key is gone, other keys are untouched.
    #[verifier::external_body]
    pub(crate) fn remove(&mut self, key: &[u8])
        ensures
            byte_map_contents(*final(self)) == byte_map_contents(*old(self)).remove(key@),
    {
        self.inner.remove(key);
    }

    /// Relies on hashbrown::HashMap::clear: no entry is left.
    #[verifier::external_body]
    pub(crate) fn clear(&mut self)
        ensures
            byte_map_contents(*final(self)) == no_bytes_map(),
    {
        self.inner.clear()
    }
}

impl ByteSet {
    /// Relies on hashbrown::HashSet::new: the new set is empty.
    #[verifier::external_body]
    pub(crate) fn new() -> (r: ByteSet)
        ensures
            byte_set_contents(r) == no_bytes_set(),
    {
        ByteSet { inner: hashbrown::HashSet::new() }
    }

    /// Relies on hashbrown::HashSet::contains.
    #[verifier::external_body]
    pub(crate) fn contains(&self, key: &[u8]) -> (r: bool)
        ensures
            r == byte_set_contents(*self).contains(key@),
    {
        self.inner.contains(key)
    }

    /// Relies on hashbrown::HashSet::insert: the key is now a member.
    #[verifier::external_body]
    pub(crate) fn insert(&mut self, key: Vec<u8>)
        ensures
            byte_set_contents(*final(self)) == byte_set_contents(*old(self)).insert(key@),
    {
        self.inner.insert(key);
    }

    /// Relies on hashbrown::HashSet::remove: the key is no longer a member.
    #[verifier::external_body]
    pub(crate) fn remove(&mut self, key: &[u8])
        ensures
            byte_set_contents(*final(self)) == byte_set_contents(*old(self)).remove(key@),
    {
        self.inner.remove(key);
    }

    /// Relies on hashbrown::HashSet::clear: no member is left.
    #[verifier::external_body]
    pub(crate) fn clear(&mut self)
        ensures
            byte_set_contents(*final(self)) == no_bytes_set(),
    {
        self.inner.clear()
    }
}

impl PendingMap {
    /// Relies on hashbrown::HashMap::new: the new map is empty.
    #[verifier::external_body]
    pub(crate) fn new() -> (r: PendingMap)
        ensures
            pending_contents(r) == no_pending(),
    {
        PendingMap { inner: hashbrown::HashMap::new() }
    }

    /// Relies on hashbrown::HashMap::insert: the key now maps to the entry, replacing an
    /// earlier one; other keys are untouched.
    #[verifier::external_body]
    pub(crate) fn insert(&mut self, key: Vec<u8>, entry: Option<Vec<u8>>)
        ensures
            pending_contents(*final(self)) == pending_contents(*old(self)).insert(key@, opt_bytes(entry)),
    {
        self.inner.insert(key, entry);
    }

    /// Relies on hashbrown::HashMap::drain: every entry, each key once, in no particular
    /// order; the map is left empty.
    #[verifier::external_body]
    pub(crate) fn take_entries(&mut self) -> (r: Vec<(Vec<u8>, Option<Vec<u8>>)>)
        ensures
            pending_contents(*final(self)) == no_pending(),
            r@.len() == pending_contents(*old(self)).dom().len(),
            pending_contents(*old(self)).dom().finite(),
            forall|i: int| 0 <= i < r@.len() ==> #[trigger] pending_contents(*old(self)).contains_key(r@[i].0@)
                && pending_contents(*old(self))[r@[i].0@] == opt_bytes(r@[i].1),
            forall|i: int, j: int| 0 <= i < j < r@.len() ==> #[trigger] r@[i].0@ != #[trigger] r@[j].0@,
            forall|k: Seq<u8>| #[trigger] pending_contents(*old(self)).contains_key(k) ==> exists|i: int|
                0 <= i < r@.len() && r@[i].0@ == k,
    {
        self.inner.drain().collect()
    }
}

} // verus!
