//! The mathematical model of the staging cache, the batch buffer and the engine.
use vstd::prelude::*;
pub use crate::bytes::opt_bytes;

verus! {

/// What a staging cache knows: the live values written since the last reset, and the
/// keys deleted since then.
pub struct CacheView {
    pub values: Map<Seq<u8>, Seq<u8>>,
    pub tombs: Set<Seq<u8>>,
}

impl CacheView {
    /// The cache after a reset.
    pub open spec fn empty() -> CacheView {
        CacheView { values: Map::empty(), tombs: Set::empty() }
    }

    /// No key is both a live value and a tombstone.
    pub open spec fn wf(self) -> bool {
        forall|k: Seq<u8>| !(#[trigger] self.values.contains_key(k) && self.tombs.contains(k))
    }

    /// The cache holds an authoritative answer for `k`.
    pub open spec fn contains(self, k: Seq<u8>) -> bool {
        self.tombs.contains(k) || self.values.contains_key(k)
    }

    /// The live value cached for `k`, if any.
    pub open spec fn lookup(self, k: Seq<u8>) -> Option<Seq<u8>> {
        if self.values.contains_key(k) {
            Some(self.values[k])
        } else {
            None
        }
    }

    /// The cache after recording that `k` now holds `v`.
    pub open spec fn write(self, k: Seq<u8>, v: Seq<u8>) -> CacheView {
        CacheView { values: self.values.insert(k, v), tombs: self.tombs.remove(k) }
    }

    /// The cache after recording that `k` was deleted.
    pub open spec fn erase(self, k: Seq<u8>) -> CacheView {
        CacheView { values: self.values.remove(k), tombs: self.tombs.insert(k) }
    }
}

/// The state an adapter keeps in front of its engine: the cache, the writes buffered
/// by the open batch (`None` marks a delete), and whether a batch is open.
pub struct StageView {
    pub cache: CacheView,
    pub pending: Map<Seq<u8>, Option<Seq<u8>>>,
    pub batch_on: bool,
}

impl StageView {
    /// The state of a freshly opened adapter.
    pub open spec fn initial() -> StageView {
        StageView { cache: CacheView::empty(), pending: Map::empty(), batch_on: false }
    }

    /// The cache is well formed, and nothing is buffered outside a batch.
    pub open spec fn wf(self) -> bool {
        &&& self.cache.wf()
        &&& !self.batch_on ==> self.pending.dom() == Set::<Seq<u8>>::empty()
    }

    /// What `get(k)` returns, given what the engine holds for `k`.
    pub open spec fn read(self, k: Seq<u8>, stored: Option<Seq<u8>>) -> Option<Seq<u8>> {
        if self.cache.contains(k) {
            self.cache.lookup(k)
        } else {
            stored
        }
    }

    /// The state after `get(k)`, given what the engine holds for `k`: a value found in
    /// the engine is cached, an absence is not.
    pub open spec fn after_read(self, k: Seq<u8>, stored: Option<Seq<u8>>) -> StageView {
        if self.cache.contains(k) {
            self
        } else {
            match stored {
                Some(v) => StageView { cache: self.cache.write(k, v), ..self },
                None => self,
            }
        }
    }

    /// The state after `put(k, v)`: cached, and buffered when a batch is open.
    pub open spec fn after_put(self, k: Seq<u8>, v: Seq<u8>) -> StageView {
        StageView {
            cache: self.cache.write(k, v),
            pending: if self.batch_on {
                self.pending.insert(k, Some(v))
            } else {
                self.pending
            },
            batch_on: self.batch_on,
        }
    }

    /// The state after `delete(k)`: a tombstone, and a buffered delete when a batch is
    /// open.
    pub open spec fn after_delete(self, k: Seq<u8>) -> StageView {
        StageView {
            cache: self.cache.erase(k),
            pending: if self.batch_on {
                self.pending.insert(k, None)
            } else {
                self.pending
            },
            batch_on: self.batch_on,
        }
    }

    /// The state after `begin_batch`: the cache is reset and an empty buffer is open.
    pub open spec fn after_begin(self) -> StageView {
        StageView { cache: CacheView::empty(), pending: Map::empty(), batch_on: true }
    }

    /// The state after `commit_batch`: the buffer is consumed and the batch closed.
    pub open spec fn after_commit(self) -> StageView {
        StageView { cache: self.cache, pending: Map::empty(), batch_on: false }
    }
}

/// The engine's contents after applying buffered writes: the last write recorded for a
/// key wins, and a `None` removes the key.
pub open spec fn apply_pending(
    engine: Map<Seq<u8>, Seq<u8>>,
    pending: Map<Seq<u8>, Option<Seq<u8>>>,
) -> Map<Seq<u8>, Seq<u8>> {
    Map::new(
        |k: Seq<u8>|
            if pending.contains_key(k) {
                pending[k] is Some
            } else {
                engine.contains_key(k)
            },
        |k: Seq<u8>|
            if pending.contains_key(k) {
                pending[k]->Some_0
            } else {
                engine[k]
            },
    )
}

/// What the engine holds for `k`.
pub open spec fn stored(engine: Map<Seq<u8>, Seq<u8>>, k: Seq<u8>) -> Option<Seq<u8>> {
    if engine.contains_key(k) {
        Some(engine[k])
    } else {
        None
    }
}

/// The engine after `put(k, v)` in state `s`: written through unless a batch is open.
pub open spec fn engine_after_put(
    s: StageView,
    engine: Map<Seq<u8>, Seq<u8>>,
    k: Seq<u8>,
    v: Seq<u8>,
) -> Map<Seq<u8>, Seq<u8>> {
    if s.batch_on {
        engine
    } else {
        engine.insert(k, v)
    }
}

/// The engine after `delete(k)` in state `s`: deleted through unless a batch is open.
pub open spec fn engine_after_delete(
    s: StageView,
    engine: Map<Seq<u8>, Seq<u8>>,
    k: Seq<u8>,
) -> Map<Seq<u8>, Seq<u8>> {
    if s.batch_on {
        engine
    } else {
        engine.remove(k)
    }
}

/// The engine after `commit_batch` in state `s`: the buffer applied as one unit.
pub open spec fn engine_after_commit(
    s: StageView,
    engine: Map<Seq<u8>, Seq<u8>>,
) -> Map<Seq<u8>, Seq<u8>> {
    apply_pending(engine, s.pending)
}

/// The engine after applying `writes` one after another.
pub open spec fn apply_writes(
    engine: Map<Seq<u8>, Seq<u8>>,
    writes: Seq<(Seq<u8>, Option<Seq<u8>>)>,
) -> Map<Seq<u8>, Seq<u8>>
    decreases writes.len(),
{
    if writes.len() == 0 {
        engine
    } else {
        let e = apply_writes(engine, writes.drop_last());
        match writes.last().1 {
            Some(v) => e.insert(writes.last().0, v),
            None => e.remove(writes.last().0),
        }
    }
}

/// The buffer that recording `writes` one after another leaves: the last write of each
/// key.
pub open spec fn buffer_of(writes: Seq<(Seq<u8>, Option<Seq<u8>>)>) -> Map<Seq<u8>, Option<Seq<u8>>>
    decreases writes.len(),
{
    if writes.len() == 0 {
        Map::empty()
    } else {
        buffer_of(writes.drop_last()).insert(writes.last().0, writes.last().1)
    }
}

} // verus!
