//! Laws of the generational arena.
//!
//! These proof functions state, over the abstract [`ArenaModel`], what
//! holds of every sequence of insertions and removals: a removed key
//! never looks anything up again, free slots are reused before the
//! arena grows, and the number of stored values tracks the operations.

use vstd::prelude::*;

use crate::gen_vec::{
    arena_wf, occ_count, spec_get, spec_insert, spec_key_live, spec_remove, ArenaModel, Key,
    lemma_occ_count_push, lemma_occ_count_update,
};

verus! {

/// One arena operation, for speaking about whole histories.
pub ghost enum ArenaOp<T> {
    Insert(T),
    Remove(Key),
}

/// The arena after one operation.
pub open spec fn apply_op<T>(a: ArenaModel<T>, op: ArenaOp<T>) -> ArenaModel<T> {
    match op {
        ArenaOp::Insert(v) => spec_insert(a, v).0,
        ArenaOp::Remove(k) => spec_remove(a, k),
    }
}

/// The arena after a whole history of operations, first first.
pub open spec fn apply_ops<T>(a: ArenaModel<T>, ops: Seq<ArenaOp<T>>) -> ArenaModel<T>
    decreases ops.len(),
{
    if ops.len() == 0 {
        a
    } else {
        apply_ops(apply_op(a, ops.first()), ops.drop_first())
    }
}

/// A key that can never match again: its slot has moved past its
/// generation, or sits freed at that generation outside the free list
/// (a retired slot), so no later insertion revives it.
pub open spec fn arena_stale<T>(a: ArenaModel<T>, k: Key) -> bool {
    &&& k.index < a.slots.len()
    &&& (a.gens[k.index as int] > k.generation as int || (a.gens[k.index as int]
        == k.generation as int && a.slots[k.index as int] is None && !a.free.contains(
        k.index as int,
    )))
}

/// A stale key looks nothing up.
pub proof fn lemma_stale_get_none<T>(a: ArenaModel<T>, k: Key)
    requires
        arena_stale(a, k),
    ensures
        spec_get(a, k) is None,
{
}

/// An insertion leaves the arena well-formed and stores one more value.
pub proof fn lemma_insert_preserves_wf<T>(a: ArenaModel<T>, v: T)
    requires
        arena_wf(a),
    ensures
        arena_wf(spec_insert(a, v).0),
        occ_count(spec_insert(a, v).0.slots) == occ_count(a.slots) + 1,
{
    let b = spec_insert(a, v).0;
    if a.free.len() > 0 {
        let i = a.free[0];
        lemma_occ_count_update(a.slots, i, Some(v));
        assert forall|k: int| 0 <= k < b.free.len() implies 0 <= #[trigger] b.free[k]
            < b.slots.len() by {
            assert(a.free[k + 1] == b.free[k]);
        }
        assert forall|k: int| 0 <= k < b.free.len() implies #[trigger] b.slots[b.free[k]] is None by {
            assert(a.free[k + 1] == b.free[k]);
            assert(a.slots[a.free[k + 1]] is None);
        }
        assert forall|k: int| 0 <= k < b.free.len() implies #[trigger] b.gens[b.free[k]]
            < usize::MAX by {
            assert(a.free[k + 1] == b.free[k]);
            assert(a.gens[a.free[k + 1]] < usize::MAX);
        }
        assert forall|k: int| 0 <= k < b.free.len() implies #[trigger] b.ptrs[b.free[k]] == (if k
            + 1 < b.free.len() {
            b.free[k + 1]
        } else {
            b.slots.len() as int
        }) by {
            assert(a.free[k + 1] == b.free[k]);
            assert(a.ptrs[a.free[k + 1]] == (if k + 2 < a.free.len() {
                a.free[k + 2]
            } else {
                a.slots.len() as int
            }));
            assert(a.slots[a.free[k + 1]] is None);
        }
    } else {
        lemma_occ_count_push(a.slots, Some(v));
    }
}

/// A removal leaves the arena well-formed; a live key frees one value,
/// a stale one frees nothing.
pub proof fn lemma_remove_preserves_wf<T>(a: ArenaModel<T>, k: Key)
    requires
        arena_wf(a),
    ensures
        arena_wf(spec_remove(a, k)),
        occ_count(spec_remove(a, k).slots) == occ_count(a.slots) - (if spec_key_live(a, k) {
            1int
        } else {
            0int
        }),
{
    let b = spec_remove(a, k);
    if spec_key_live(a, k) {
        let i = k.index as int;
        lemma_occ_count_update(a.slots, i, None);
        assert forall|m: int| 0 <= m < a.free.len() implies a.free[m] != i by {
            assert(a.slots[a.free[m]] is None);
        }
        let g = if a.gens[i] < usize::MAX {
            a.gens[i] + 1
        } else {
            a.gens[i]
        };
        if g < usize::MAX {
            assert forall|m: int| 0 <= m < b.free.len() implies #[trigger] b.slots[b.free[m]] is None by {
                if m > 0 {
                    assert(b.free[m] == a.free[m - 1]);
                    assert(a.slots[a.free[m - 1]] is None);
                }
            }
            assert forall|m: int| 0 <= m < b.free.len() implies #[trigger] b.gens[b.free[m]]
                < usize::MAX by {
                if m > 0 {
                    assert(b.free[m] == a.free[m - 1]);
                    assert(a.gens[a.free[m - 1]] < usize::MAX);
                }
            }
            assert forall|m: int| 0 <= m < b.free.len() implies #[trigger] b.ptrs[b.free[m]] == (if
                m + 1 < b.free.len() {
                b.free[m + 1]
            } else {
                b.slots.len() as int
            }) by {
                if m > 0 {
                    assert(b.free[m] == a.free[m - 1]);
                    assert(a.ptrs[a.free[m - 1]] == (if m < a.free.len() {
                        a.free[m]
                    } else {
                        a.slots.len() as int
                    }));
                }
            }
            assert forall|m1: int, m2: int|
                0 <= m1 < b.free.len() && 0 <= m2 < b.free.len() && m1 != m2 implies #[trigger] b
                .free[m1] != #[trigger] b.free[m2] by {
                if m1 > 0 && m2 > 0 {
                    assert(b.free[m1] == a.free[m1 - 1]);
                    assert(b.free[m2] == a.free[m2 - 1]);
                } else if m1 == 0 {
                    assert(b.free[m2] == a.free[m2 - 1]);
                } else {
                    assert(b.free[m1] == a.free[m1 - 1]);
                }
            }
        } else {
            assert forall|m: int| 0 <= m < b.free.len() implies #[trigger] b.slots[b.free[m]] is None by {
                assert(a.slots[a.free[m]] is None);
            }
        }
    }
}

/// One operation preserves well-formedness.
pub proof fn lemma_op_preserves_wf<T>(a: ArenaModel<T>, op: ArenaOp<T>)
    requires
        arena_wf(a),
    ensures
        arena_wf(apply_op(a, op)),
{
    match op {
        ArenaOp::Insert(v) => lemma_insert_preserves_wf(a, v),
        ArenaOp::Remove(k) => lemma_remove_preserves_wf(a, k),
    }
}

/// Removing a live key makes it stale.
pub proof fn lemma_remove_makes_stale<T>(a: ArenaModel<T>, k: Key)
    requires
        arena_wf(a),
        spec_key_live(a, k),
    ensures
        arena_stale(spec_remove(a, k), k),
{
    let i = k.index as int;
    let b = spec_remove(a, k);
    if a.gens[i] >= usize::MAX {
        assert(!b.free.contains(i)) by {
            if b.free.contains(i) {
                let m = choose|m: int| 0 <= m < b.free.len() && b.free[m] == i;
                assert(a.slots[a.free[m]] is None);
            }
        }
    }
}

/// Once stale, a key stays stale through any further operation.
pub proof fn lemma_stale_preserved<T>(a: ArenaModel<T>, k: Key, op: ArenaOp<T>)
    requires
        arena_wf(a),
        arena_stale(a, k),
    ensures
        arena_stale(apply_op(a, op), k),
{
    let i = k.index as int;
    let b = apply_op(a, op);
    match op {
        ArenaOp::Insert(v) => {
            if a.free.len() > 0 {
                if a.free[0] == i {
                    assert(a.free.contains(i)) by {
                        assert(a.free[0] == i);
                    }
                    assert(a.slots[i] is None);
                    assert(a.gens[i] > k.generation as int || a.gens[i] == k.generation as int);
                } else {
                    if !(a.gens[i] > k.generation as int) {
                        assert(!b.free.contains(i)) by {
                            if b.free.contains(i) {
                                let m = choose|m: int|
                                    0 <= m < b.free.len() && b.free[m] == i;
                                assert(b.free[m] == a.free[m + 1]);
                                assert(a.free.contains(i)) by {
                                    assert(a.free[m + 1] == i);
                                }
                            }
                        }
                    }
                }
            }
        },
        ArenaOp::Remove(k2) => {
            if spec_key_live(a, k2) {
                let j = k2.index as int;
                if j == i {
                    assert(a.slots[i] is Some);
                    assert(a.gens[i] > k.generation as int);
                } else {
                    if !(a.gens[i] > k.generation as int) {
                        assert(!b.free.contains(i)) by {
                            if b.free.contains(i) {
                                let m = choose|m: int|
                                    0 <= m < b.free.len() && b.free[m] == i;
                                if b.free.len() == a.free.len() + 1 {
                                    if m == 0 {
                                        assert(b.free[0] == j);
                                    } else {
                                        assert(b.free[m] == a.free[m - 1]);
                                        assert(a.free.contains(i)) by {
                                            assert(a.free[m - 1] == i);
                                        }
                                    }
                                } else {
                                    assert(a.free.contains(i)) by {
                                        assert(a.free[m] == i);
                                    }
                                }
                            }
                        }
                    }
                }
            }
        },
    }
}

/// A stale key stays stale, and the arena well-formed, through any
/// history of operations.
pub proof fn lemma_stale_stays_stale<T>(a: ArenaModel<T>, k: Key, ops: Seq<ArenaOp<T>>)
    requires
        arena_wf(a),
        arena_stale(a, k),
    ensures
        arena_wf(apply_ops(a, ops)),
        arena_stale(apply_ops(a, ops), k),
    decreases ops.len(),
{
    if ops.len() > 0 {
        lemma_stale_preserved(a, k, ops.first());
        lemma_op_preserves_wf(a, ops.first());
        lemma_stale_stays_stale(apply_op(a, ops.first()), k, ops.drop_first());
    }
}

/// After a key is removed, no later history of insertions and removals
/// ever makes a lookup with that key yield a value again.
pub proof fn lemma_removed_key_stays_dead<T>(a: ArenaModel<T>, k: Key, ops: Seq<ArenaOp<T>>)
    requires
        arena_wf(a),
        spec_key_live(a, k),
    ensures
        spec_get(apply_ops(spec_remove(a, k), ops), k) is None,
{
    lemma_remove_makes_stale(a, k);
    lemma_remove_preserves_wf(a, k);
    lemma_stale_stays_stale(spec_remove(a, k), k, ops);
    lemma_stale_get_none(apply_ops(spec_remove(a, k), ops), k);
}

/// A key whose generation lags behind its slot's current generation
/// looks nothing up, now or after any further operations.
pub proof fn lemma_old_generation_stays_dead<T>(a: ArenaModel<T>, k: Key, ops: Seq<ArenaOp<T>>)
    requires
        arena_wf(a),
        k.index < a.slots.len(),
        a.gens[k.index as int] > k.generation as int,
    ensures
        spec_get(apply_ops(a, ops), k) is None,
{
    lemma_stale_stays_stale(a, k, ops);
    lemma_stale_get_none(apply_ops(a, ops), k);
}

/// The arena after a sequence of insertions, in order.
pub open spec fn insert_all<T>(a: ArenaModel<T>, vs: Seq<T>) -> ArenaModel<T>
    decreases vs.len(),
{
    if vs.len() == 0 {
        a
    } else {
        insert_all(spec_insert(a, vs.first()).0, vs.drop_first())
    }
}

/// As long as freed slots remain, insertions reuse them: inserting no
/// more values than there are free slots never grows the arena.
pub proof fn lemma_inserts_reuse_free_slots<T>(a: ArenaModel<T>, vs: Seq<T>)
    requires
        arena_wf(a),
        vs.len() <= a.free.len(),
    ensures
        arena_wf(insert_all(a, vs)),
        insert_all(a, vs).slots.len() == a.slots.len(),
        insert_all(a, vs).free.len() == a.free.len() - vs.len(),
    decreases vs.len(),
{
    if vs.len() > 0 {
        lemma_insert_preserves_wf(a, vs.first());
        lemma_inserts_reuse_free_slots(spec_insert(a, vs.first()).0, vs.drop_first());
    }
}

/// The number of insertions in a history.
pub open spec fn count_inserts<T>(ops: Seq<ArenaOp<T>>) -> int
    decreases ops.len(),
{
    if ops.len() == 0 {
        0
    } else {
        (match ops.first() {
            ArenaOp::Insert(_) => 1int,
            ArenaOp::Remove(_) => 0int,
        }) + count_inserts(ops.drop_first())
    }
}

/// The number of removals in a history that hit a live key when they
/// ran.
pub open spec fn count_live_removes<T>(a: ArenaModel<T>, ops: Seq<ArenaOp<T>>) -> int
    decreases ops.len(),
{
    if ops.len() == 0 {
        0
    } else {
        (match ops.first() {
            ArenaOp::Insert(_) => 0int,
            ArenaOp::Remove(k) => if spec_key_live(a, k) {
                1int
            } else {
                0int
            },
        }) + count_live_removes(apply_op(a, ops.first()), ops.drop_first())
    }
}

/// After N insertions and M effective removals the arena stores exactly
/// N − M more values than before — which is what an iteration walk
/// yields, one value per occupied slot.
pub proof fn lemma_live_count_tracks_ops<T>(a: ArenaModel<T>, ops: Seq<ArenaOp<T>>)
    requires
        arena_wf(a),
    ensures
        occ_count(apply_ops(a, ops).slots) == occ_count(a.slots) + count_inserts(ops)
            - count_live_removes(a, ops),
    decreases ops.len(),
{
    if ops.len() > 0 {
        match ops.first() {
            ArenaOp::Insert(v) => lemma_insert_preserves_wf(a, v),
            ArenaOp::Remove(k) => lemma_remove_preserves_wf(a, k),
        }
        lemma_op_preserves_wf(a, ops.first());
        lemma_live_count_tracks_ops(apply_op(a, ops.first()), ops.drop_first());
    }
}

} // verus!
