//! Laws of the storage contract, proved over the model of `model.rs`.
use vstd::prelude::*;
use crate::model::{
    apply_pending, apply_writes, buffer_of, engine_after_commit, engine_after_delete, engine_after_put,
    stored, StageView,
};

verus! {

/// Every operation keeps the adapter state well formed.
pub proof fn operations_keep_wf(s: StageView, k: Seq<u8>, v: Seq<u8>, found: Option<Seq<u8>>)
    requires
        s.wf(),
    ensures
        s.after_put(k, v).wf(),
        s.after_delete(k).wf(),
        s.after_read(k, found).wf(),
        s.after_begin().wf(),
        s.after_commit().wf(),
{
    assert forall|j: Seq<u8>|
        !(#[trigger] s.after_delete(k).cache.values.contains_key(j) && s.after_delete(
            k,
        ).cache.tombs.contains(j)) by {
        if j != k {
            assert(s.after_delete(k).cache.values.contains_key(j) == s.cache.values.contains_key(j));
        }
    }
    assert(s.after_commit().pending.dom() =~= Set::<Seq<u8>>::empty());
    assert(s.after_begin().cache.tombs =~= Set::<Seq<u8>>::empty());
}

/// Reading a key right after writing it gives the written value, whether or not a
/// batch is open.
pub proof fn put_then_get(s: StageView, engine: Map<Seq<u8>, Seq<u8>>, k: Seq<u8>, v: Seq<u8>)
    requires
        s.wf(),
    ensures
        s.after_put(k, v).read(k, stored(engine_after_put(s, engine, k, v), k)) == Some(v),
{
}

/// A deleted key reads as absent, whether or not a batch is open, and stays absent
/// once the batch is committed, both through the contract and in the engine.
pub proof fn put_delete_then_get(
    s: StageView,
    engine: Map<Seq<u8>, Seq<u8>>,
    k: Seq<u8>,
    v: Seq<u8>,
)
    requires
        s.wf(),
    ensures
        ({
            let s1 = s.after_put(k, v);
            let e1 = engine_after_put(s, engine, k, v);
            let s2 = s1.after_delete(k);
            let e2 = engine_after_delete(s1, e1, k);
            &&& s2.read(k, stored(e2, k)) is None
            &&& s2.after_commit().read(k, stored(engine_after_commit(s2, e2), k)) is None
            &&& !engine_after_commit(s2, e2).contains_key(k)
        }),
{
    let s1 = s.after_put(k, v);
    let e1 = engine_after_put(s, engine, k, v);
    let s2 = s1.after_delete(k);
    let e2 = engine_after_delete(s1, e1, k);
    if !s.batch_on {
        assert(!s2.pending.contains_key(k));
    }
}

/// Right after a batch starts, no key is answered from the cache: a read goes to the
/// engine, whatever was cached before.
pub proof fn begin_resets_cache(s: StageView, engine: Map<Seq<u8>, Seq<u8>>, k: Seq<u8>)
    ensures
        !s.after_begin().cache.contains(k),
        s.after_begin().read(k, stored(engine, k)) == stored(engine, k),
{
}

/// Writes and deletes made while a batch is open leave the engine untouched; on
/// commit the last write of each key reaches it.
pub proof fn batch_defers_writes(
    s: StageView,
    engine: Map<Seq<u8>, Seq<u8>>,
    k: Seq<u8>,
    v: Seq<u8>,
)
    requires
        s.batch_on,
    ensures
        engine_after_put(s, engine, k, v) == engine,
        engine_after_delete(s, engine, k) == engine,
        stored(engine_after_commit(s.after_put(k, v), engine), k) == Some(v),
        stored(engine_after_commit(s.after_delete(k), engine), k) is None,
{
}

/// Deleting a key that was never written succeeds in the model and leaves it absent.
pub proof fn delete_absent_key(s: StageView, engine: Map<Seq<u8>, Seq<u8>>, k: Seq<u8>)
    requires
        s.wf(),
        !engine.contains_key(k),
        !s.cache.contains(k),
    ensures
        s.after_delete(k).read(k, stored(engine_after_delete(s, engine, k), k)) is None,
        stored(engine_after_delete(s, engine, k), k) is None,
{
}

/// Applying writes one after another leaves the engine as applying, in one unit, the
/// buffer they record would: for each key the last write wins.
pub proof fn writes_apply_as_their_buffer(
    engine: Map<Seq<u8>, Seq<u8>>,
    writes: Seq<(Seq<u8>, Option<Seq<u8>>)>,
)
    ensures
        apply_writes(engine, writes) == apply_pending(engine, buffer_of(writes)),
    decreases writes.len(),
{
    if writes.len() > 0 {
        let rest = writes.drop_last();
        writes_apply_as_their_buffer(engine, rest);
        let (k, w) = writes.last();
        match w {
            Some(v) => {
                assert(apply_pending(engine, buffer_of(rest)).insert(k, v) =~= apply_pending(
                    engine,
                    buffer_of(writes),
                ));
            },
            None => {
                assert(apply_pending(engine, buffer_of(rest)).remove(k) =~= apply_pending(
                    engine,
                    buffer_of(writes),
                ));
            },
        }
    }
}

proof fn buffer_holds_each_write(writes: Seq<(Seq<u8>, Option<Seq<u8>>)>, i: int)
    requires
        0 <= i < writes.len(),
        forall|a: int, b: int| 0 <= a < b < writes.len() ==> #[trigger] writes[a].0 != #[trigger] writes[b].0,
    ensures
        buffer_of(writes).contains_key(writes[i].0),
        buffer_of(writes)[writes[i].0] == writes[i].1,
    decreases writes.len(),
{
    if i < writes.len() - 1 {
        let rest = writes.drop_last();
        assert(rest[i] == writes[i]);
        assert(writes[i].0 != writes[writes.len() - 1].0);
        buffer_holds_each_write(rest, i);
    }
}

proof fn buffer_keys_are_written(writes: Seq<(Seq<u8>, Option<Seq<u8>>)>, k: Seq<u8>)
    requires
        buffer_of(writes).contains_key(k),
    ensures
        exists|i: int| 0 <= i < writes.len() && writes[i].0 == k,
    decreases writes.len(),
{
    let rest = writes.drop_last();
    if writes.last().0 != k {
        buffer_keys_are_written(rest, k);
        let i = choose|i: int| 0 <= i < rest.len() && rest[i].0 == k;
        assert(writes[i] == rest[i]);
    }
}

/// Writes handed out by a batch, each key once with its buffered write, commit that
/// batch: applied one after another they leave the engine as applying the buffer in one
/// unit does.
pub proof fn handed_out_writes_commit_the_batch(
    engine: Map<Seq<u8>, Seq<u8>>,
    pending: Map<Seq<u8>, Option<Seq<u8>>>,
    writes: Seq<(Seq<u8>, Option<Seq<u8>>)>,
)
    requires
        forall|i: int|
            0 <= i < writes.len() ==> #[trigger] pending.contains_key(writes[i].0) && pending[writes[i].0]
                == writes[i].1,
        forall|a: int, b: int| 0 <= a < b < writes.len() ==> #[trigger] writes[a].0 != #[trigger] writes[b].0,
        forall|k: Seq<u8>| #[trigger] pending.contains_key(k) ==> exists|i: int| 0 <= i < writes.len() && writes[i].0 == k,
    ensures
        apply_writes(engine, writes) == apply_pending(engine, pending),
{
    writes_apply_as_their_buffer(engine, writes);
    assert forall|k: Seq<u8>| #[trigger] pending.contains_key(k) implies buffer_of(writes).contains_key(k)
        && buffer_of(writes)[k] == pending[k] by {
        let i = choose|i: int| 0 <= i < writes.len() && writes[i].0 == k;
        buffer_holds_each_write(writes, i);
    }
    assert forall|k: Seq<u8>| #[trigger] buffer_of(writes).contains_key(k) implies pending.contains_key(k) by {
        buffer_keys_are_written(writes, k);
        let i = choose|i: int| 0 <= i < writes.len() && writes[i].0 == k;
        assert(pending.contains_key(writes[i].0));
    }
    assert(buffer_of(writes) =~= pending);
}

} // verus!
