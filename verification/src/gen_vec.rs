//! A vector with generational indices.
//!
//! Values are stored in slots addressed by a [`Key`]: a slot index paired
//! with the generation the slot had when the value was inserted. Freed
//! slots go onto an intrusive free list and are reused by later
//! insertions, but every free bumps the slot's generation, so a key
//! obtained before the free never matches the slot again.

use vstd::prelude::*;

verus! {

/// Handle to a value stored in a [`GenVec`].
///
/// A key stays valid until the value it names is removed; afterwards it
/// never matches again, even if the slot is reoccupied.
#[derive(Clone, Copy, PartialEq, Eq, Structural, Debug)]
pub struct Key {
    pub index: usize,
    pub generation: usize,
}

enum Entry<T> {
    Free { next_free: usize },
    Occupied { value: T },
}

struct GenEntry<T> {
    value: Entry<T>,
    generation: usize,
}

/// The abstract state of a [`GenVec`]: one `Option` per slot, the
/// generation counter of each slot, the next-free pointer each free slot
/// carries (`-1` on occupied slots), the order of the free list (head
/// first), and the stored head index.
#[verifier::ext_equal]
pub ghost struct ArenaModel<T> {
    pub slots: Seq<Option<T>>,
    pub gens: Seq<int>,
    pub ptrs: Seq<int>,
    pub free: Seq<int>,
    pub head: int,
}

/// Well-formedness of an arena: generations and pointers line up with
/// the slots, the free list names distinct free slots, the intrusive
/// pointers spell out exactly the recorded order (ending one past the
/// last slot), and no listed slot has exhausted its generation counter.
pub open spec fn arena_wf<T>(a: ArenaModel<T>) -> bool {
    &&& a.gens.len() == a.slots.len()
    &&& a.ptrs.len() == a.slots.len()
    &&& forall|k: int| 0 <= k < a.free.len() ==> 0 <= #[trigger] a.free[k] < a.slots.len()
    &&& forall|k: int| 0 <= k < a.free.len() ==> #[trigger] a.slots[a.free[k]] is None
    &&& forall|k: int| 0 <= k < a.free.len() ==> #[trigger] a.gens[a.free[k]] < usize::MAX
    &&& forall|k: int|
        0 <= k < a.free.len() ==> #[trigger] a.ptrs[a.free[k]] == (if k + 1 < a.free.len() {
            a.free[k + 1]
        } else {
            a.slots.len() as int
        })
    &&& forall|k1: int, k2: int|
        0 <= k1 < a.free.len() && 0 <= k2 < a.free.len() && k1 != k2 ==> #[trigger] a.free[k1]
            != #[trigger] a.free[k2]
    &&& forall|i: int| 0 <= i < a.gens.len() ==> 0 <= #[trigger] a.gens[i] <= usize::MAX
    &&& a.head == if a.free.len() == 0 {
        a.slots.len() as int
    } else {
        a.free[0]
    }
}

/// True when `k` names the slot `k.index` at its current generation,
/// with a value in it.
pub open spec fn spec_key_live<T>(a: ArenaModel<T>, k: Key) -> bool {
    &&& k.index < a.slots.len()
    &&& a.slots[k.index as int] is Some
    &&& a.gens[k.index as int] == k.generation as int
}

/// What a lookup yields: the stored value when the key is live, nothing
/// otherwise.
pub open spec fn spec_get<T>(a: ArenaModel<T>, k: Key) -> Option<T> {
    if spec_key_live(a, k) {
        a.slots[k.index as int]
    } else {
        None
    }
}

/// The arena after an insertion, with the key handed out: the head of
/// the free list is reoccupied at a bumped generation, or a fresh slot
/// is appended at generation 0 when the free list is empty.
pub open spec fn spec_insert<T>(a: ArenaModel<T>, v: T) -> (ArenaModel<T>, Key) {
    if a.free.len() > 0 {
        let i = a.free[0];
        let g = a.gens[i] + 1;
        (
            ArenaModel {
                slots: a.slots.update(i, Some(v)),
                gens: a.gens.update(i, g),
                ptrs: a.ptrs.update(i, -1),
                free: a.free.drop_first(),
                head: if a.free.len() == 1 {
                    a.slots.len() as int
                } else {
                    a.free[1]
                },
            },
            Key { index: i as usize, generation: g as usize },
        )
    } else {
        (
            ArenaModel {
                slots: a.slots.push(Some(v)),
                gens: a.gens.push(0),
                ptrs: a.ptrs.push(-1),
                free: a.free,
                head: a.slots.len() as int + 1,
            },
            Key { index: a.slots.len() as usize, generation: 0 },
        )
    }
}

/// The arena after a removal: a no-op for a stale key; otherwise the
/// slot is freed, its generation bumped, and it becomes the new head of
/// the free list. A slot whose generation counter is exhausted is
/// retired instead of being listed for reuse, so generations never wrap.
pub open spec fn spec_remove<T>(a: ArenaModel<T>, k: Key) -> ArenaModel<T> {
    if spec_key_live(a, k) {
        let i = k.index as int;
        let g = if a.gens[i] < usize::MAX {
            a.gens[i] + 1
        } else {
            a.gens[i]
        };
        ArenaModel {
            slots: a.slots.update(i, None),
            gens: a.gens.update(i, g),
            ptrs: a.ptrs.update(i, a.head),
            free: if g < usize::MAX {
                seq![i] + a.free
            } else {
                a.free
            },
            head: if g < usize::MAX {
                i
            } else {
                a.head
            },
        }
    } else {
        a
    }
}

/// The arena after the value at occupied slot `i` is replaced: only the
/// slot's contents change; generations, pointers and the free list stay.
pub open spec fn spec_value_update<T>(a: ArenaModel<T>, i: int, v: T) -> ArenaModel<T> {
    ArenaModel {
        slots: a.slots.update(i, Some(v)),
        gens: a.gens,
        ptrs: a.ptrs,
        free: a.free,
        head: a.head,
    }
}

/// Replacing the value held by an occupied slot preserves
/// well-formedness: the free list never runs through occupied slots.
pub proof fn lemma_wf_after_value_update<T>(a: ArenaModel<T>, i: int, v: T)
    requires
        arena_wf(a),
        0 <= i < a.slots.len(),
        a.slots[i] is Some,
    ensures
        arena_wf(spec_value_update(a, i, v)),
        occ_count(spec_value_update(a, i, v).slots) == occ_count(a.slots),
{
    let b = spec_value_update(a, i, v);
    assert forall|k: int| 0 <= k < b.free.len() implies #[trigger] b.slots[b.free[k]] is None by {
        assert(a.slots[a.free[k]] is None);
    }
    lemma_occ_count_update(a.slots, i, Some(v));
}

/// The number of occupied slots among the first `k`.
pub open spec fn occ_count_prefix<T>(slots: Seq<Option<T>>, k: int) -> int
    decreases k,
{
    if k <= 0 {
        0
    } else {
        occ_count_prefix(slots, k - 1) + if slots[k - 1] is Some {
            1int
        } else {
            0int
        }
    }
}

/// The number of occupied slots.
pub open spec fn occ_count<T>(slots: Seq<Option<T>>) -> int {
    occ_count_prefix(slots, slots.len() as int)
}

/// No prefix holds more occupied slots than it has slots.
proof fn lemma_occ_prefix_le<T>(slots: Seq<Option<T>>, k: int)
    requires
        k >= 0,
    ensures
        occ_count_prefix(slots, k) <= k,
        occ_count_prefix(slots, k) >= 0,
    decreases k,
{
    if k > 0 {
        lemma_occ_prefix_le(slots, k - 1);
    }
}

/// Updating one slot beyond the prefix leaves its count alone; updating
/// one inside shifts the count by the change at that slot.
proof fn lemma_occ_prefix_update<T>(slots: Seq<Option<T>>, i: int, v: Option<T>, k: int)
    requires
        0 <= i < slots.len(),
        k <= slots.len(),
    ensures
        occ_count_prefix(slots.update(i, v), k) == occ_count_prefix(slots, k) + if i < k {
            (if v is Some {
                1int
            } else {
                0int
            }) - (if slots[i] is Some {
                1int
            } else {
                0int
            })
        } else {
            0int
        },
    decreases k,
{
    if k > 0 {
        lemma_occ_prefix_update(slots, i, v, k - 1);
    }
}

/// Appending a slot leaves the count of every existing prefix alone.
proof fn lemma_occ_prefix_push<T>(slots: Seq<Option<T>>, v: Option<T>, k: int)
    requires
        k <= slots.len(),
    ensures
        occ_count_prefix(slots.push(v), k) == occ_count_prefix(slots, k),
    decreases k,
{
    if k > 0 {
        lemma_occ_prefix_push(slots, v, k - 1);
    }
}

/// How `occ_count` reacts to updating slot `i`.
pub proof fn lemma_occ_count_update<T>(slots: Seq<Option<T>>, i: int, v: Option<T>)
    requires
        0 <= i < slots.len(),
    ensures
        occ_count(slots.update(i, v)) == occ_count(slots) + (if v is Some {
            1int
        } else {
            0int
        }) - (if slots[i] is Some {
            1int
        } else {
            0int
        }),
{
    lemma_occ_prefix_update(slots, i, v, slots.len() as int);
}

/// How `occ_count` reacts to appending a slot.
pub proof fn lemma_occ_count_push<T>(slots: Seq<Option<T>>, v: Option<T>)
    ensures
        occ_count(slots.push(v)) == occ_count(slots) + if v is Some {
            1int
        } else {
            0int
        },
{
    lemma_occ_prefix_push(slots, v, slots.len() as int);
}

/// The indices of the occupied slots among the first `k`, in ascending
/// order.
pub open spec fn occ_indices_prefix<T>(slots: Seq<Option<T>>, k: int) -> Seq<int>
    decreases k,
{
    if k <= 0 {
        Seq::empty()
    } else if slots[k - 1] is Some {
        occ_indices_prefix(slots, k - 1).push(k - 1)
    } else {
        occ_indices_prefix(slots, k - 1)
    }
}

/// The indices of the occupied slots, in ascending order.
pub open spec fn occ_indices<T>(slots: Seq<Option<T>>) -> Seq<int> {
    occ_indices_prefix(slots, slots.len() as int)
}

/// The occupied indices of a prefix: as many as the prefix's occupied
/// count, each naming an occupied slot below `k`, in strictly ascending
/// order, and every occupied slot below `k` among them.
pub proof fn lemma_occ_indices_prefix_props<T>(slots: Seq<Option<T>>, k: int)
    requires
        k >= 0,
    ensures
        occ_indices_prefix(slots, k).len() == occ_count_prefix(slots, k),
        forall|j: int|
            0 <= j < occ_indices_prefix(slots, k).len() ==> 0 <= #[trigger] occ_indices_prefix(
                slots,
                k,
            )[j] < k && slots[occ_indices_prefix(slots, k)[j]] is Some,
        forall|j1: int, j2: int|
            0 <= j1 < j2 < occ_indices_prefix(slots, k).len() ==> #[trigger] occ_indices_prefix(
                slots,
                k,
            )[j1] < #[trigger] occ_indices_prefix(slots, k)[j2],
        forall|i: int|
            0 <= i < k && slots[i] is Some ==> #[trigger] occ_indices_prefix(slots, k).contains(i),
    decreases k,
{
    if k > 0 {
        lemma_occ_indices_prefix_props(slots, k - 1);
        let prev = occ_indices_prefix(slots, k - 1);
        let cur = occ_indices_prefix(slots, k);
        assert forall|i: int| 0 <= i < k && slots[i] is Some implies #[trigger] cur.contains(i) by {
            if i < k - 1 {
                assert(prev.contains(i));
                let j = choose|j: int| 0 <= j < prev.len() && prev[j] == i;
                assert(0 <= j < cur.len() && cur[j] == i);
            } else {
                assert(cur[cur.len() - 1] == i);
            }
        }
    }
}

/// The properties of [`lemma_occ_indices_prefix_props`], for the whole
/// slot sequence: `iter` visits every occupied slot exactly once, in
/// ascending index order, and the number of visits is the live count.
pub proof fn lemma_occ_indices_props<T>(slots: Seq<Option<T>>)
    ensures
        occ_indices(slots).len() == occ_count(slots),
        forall|j: int|
            0 <= j < occ_indices(slots).len() ==> 0 <= #[trigger] occ_indices(slots)[j]
                < slots.len() && slots[occ_indices(slots)[j]] is Some,
        forall|j1: int, j2: int|
            0 <= j1 < j2 < occ_indices(slots).len() ==> #[trigger] occ_indices(slots)[j1]
                < #[trigger] occ_indices(slots)[j2],
        forall|i: int|
            0 <= i < slots.len() && slots[i] is Some ==> #[trigger] occ_indices(slots).contains(i),
{
    lemma_occ_indices_prefix_props(slots, slots.len() as int);
}

/// The occupied indices depend only on which slots are occupied, not
/// on what they hold.
pub proof fn lemma_occ_indices_same_shape<T>(s1: Seq<Option<T>>, s2: Seq<Option<T>>, k: int)
    requires
        s1.len() == s2.len(),
        forall|i: int| 0 <= i < s1.len() ==> (#[trigger] s1[i] is Some <==> #[trigger] s2[i] is Some),
        k <= s1.len(),
    ensures
        occ_indices_prefix(s1, k) == occ_indices_prefix(s2, k),
    decreases k,
{
    if k > 0 {
        lemma_occ_indices_same_shape(s1, s2, k - 1);
    }
}

/// A vector with generational indices (see the module documentation).
pub struct GenVec<T> {
    data: Vec<GenEntry<T>>,
    free_head: usize,
    free_order: Ghost<Seq<int>>,
}

impl<T> View for GenVec<T> {
    type V = ArenaModel<T>;

    closed spec fn view(&self) -> ArenaModel<T> {
        ArenaModel {
            slots: self.data@.map_values(
                |e: GenEntry<T>|
                    match e.value {
                        Entry::Occupied { value } => Some(value),
                        Entry::Free { .. } => None,
                    },
            ),
            gens: self.data@.map_values(|e: GenEntry<T>| e.generation as int),
            ptrs: self.data@.map_values(
                |e: GenEntry<T>|
                    match e.value {
                        Entry::Occupied { .. } => -1int,
                        Entry::Free { next_free } => next_free as int,
                    },
            ),
            free: self.free_order@,
            head: self.free_head as int,
        }
    }
}

impl<T> GenVec<T> {
    /// The arena is well-formed (see [`arena_wf`]).
    pub open spec fn wf(&self) -> bool {
        arena_wf(self@)
    }

    /// The number of slots, occupied or free.
    pub open spec fn slot_count(&self) -> int {
        self@.slots.len() as int
    }

    /// The number of values currently stored.
    pub open spec fn live_count(&self) -> int {
        occ_count(self@.slots)
    }

    /// An empty arena: no slots, no free list.
    pub fn new() -> (r: GenVec<T>)
        ensures
            r.wf(),
            r@.slots == Seq::<Option<T>>::empty(),
            r@.gens == Seq::<int>::empty(),
            r@.free == Seq::<int>::empty(),
    {
        GenVec { data: Vec::new(), free_head: 0, free_order: Ghost(Seq::empty()) }
    }

    /// The total slot count, freed slots included.
    pub fn len(&self) -> (r: usize)
        ensures
            r as int == self.slot_count(),
    {
        self.data.len()
    }

    /// Looks a key up: yields the stored value only when the slot is
    /// occupied at exactly the key's generation; a stale or out-of-range
    /// key yields nothing, it never panics.
    pub fn get(&self, key: &Key) -> (r: Option<&T>)
        ensures
            match r {
                Some(p) => spec_get(self@, *key) == Some(*p),
                None => spec_get(self@, *key) is None,
            },
    {
        if key.index < self.data.len() {
            let entry = &self.data[key.index];
            if entry.generation == key.generation {
                match &entry.value {
                    Entry::Occupied { value } => {
                        return Some(value);
                    },
                    Entry::Free { .. } => {
                        return None;
                    },
                }
            }
        }
        None
    }

    /// Stores a value, reusing the head of the free list when one is
    /// available (bumping that slot's generation) and growing by one
    /// fresh slot otherwise. The returned key is live for the new value.
    pub fn insert(&mut self, to_insert: T) -> (key: Key)
        requires
            old(self).wf(),
            old(self).slot_count() < usize::MAX,
        ensures
            final(self).wf(),
            final(self)@ == spec_insert(old(self)@, to_insert).0,
            key == spec_insert(old(self)@, to_insert).1,
            final(self).live_count() == old(self).live_count() + 1,
            final(self).slot_count() == if old(self)@.free.len() > 0 {
                old(self).slot_count()
            } else {
                old(self).slot_count() + 1
            },
            spec_get(final(self)@, key) == Some(to_insert),
    {
        let ghost old_model = self@;
        let key: Key = if self.free_head < self.data.len() {
            let head = self.free_head;
            proof {
                assert(old_model.free.len() > 0);
                assert(old_model.free[0] == head as int);
                assert(old_model.slots[head as int] is None);
                assert(old_model.ptrs[head as int] == (if 1 < old_model.free.len() {
                    old_model.free[1]
                } else {
                    old_model.slots.len() as int
                }));
                assert(old_model.gens[head as int] < usize::MAX);
            }
            let next: usize = match &self.data[head].value {
                Entry::Free { next_free } => *next_free,
                Entry::Occupied { .. } => vstd::pervasive::unreached(),
            };
            let generation = self.data[head].generation + 1;
            self.data[head] = GenEntry { value: Entry::Occupied { value: to_insert }, generation };
            self.free_head = next;
            proof {
                self.free_order@ = self.free_order@.drop_first();
            }
            Key { index: head, generation }
        } else {
            let index = self.data.len();
            self.data.push(GenEntry { value: Entry::Occupied { value: to_insert }, generation: 0 });
            self.free_head = index + 1;
            Key { index, generation: 0 }
        };
        proof {
            assert(self@.slots =~= spec_insert(old_model, to_insert).0.slots);
            assert(self@.gens =~= spec_insert(old_model, to_insert).0.gens);
            assert(self@.ptrs =~= spec_insert(old_model, to_insert).0.ptrs);
            assert(self@.free =~= spec_insert(old_model, to_insert).0.free);
            if old_model.free.len() > 0 {
                lemma_occ_count_update(old_model.slots, old_model.free[0], Some(to_insert));
            } else {
                lemma_occ_count_push(old_model.slots, Some(to_insert));
            }
        }
        key
    }

    /// Frees the slot a live key names: the value is dropped, the slot's
    /// generation is bumped and the slot becomes the new head of the free
    /// list. A stale or out-of-range key leaves the arena untouched; the
    /// call never panics.
    pub fn remove(&mut self, key: &Key)
        requires
            old(self).wf(),
        ensures
            final(self).wf(),
            final(self)@ == spec_remove(old(self)@, *key),
            final(self).live_count() == old(self).live_count() - (if spec_key_live(
                old(self)@,
                *key,
            ) {
                1int
            } else {
                0int
            }),
            final(self).slot_count() == old(self).slot_count(),
            spec_get(final(self)@, *key) is None,
    {
        let ghost old_model = self@;
        if key.index >= self.data.len() {
            return ;
        }
        let generation = self.data[key.index].generation;
        if generation != key.generation {
            return ;
        }
        let occupied = match &self.data[key.index].value {
            Entry::Occupied { .. } => true,
            Entry::Free { .. } => false,
        };
        if !occupied {
            return ;
        }
        let new_generation: usize = if generation < usize::MAX {
            generation + 1
        } else {
            generation
        };
        self.data[key.index] = GenEntry {
            value: Entry::Free { next_free: self.free_head },
            generation: new_generation,
        };
        if new_generation < usize::MAX {
            self.free_head = key.index;
            proof {
                self.free_order@ = seq![key.index as int] + self.free_order@;
            }
        }
        proof {
            assert(self@.slots =~= spec_remove(old_model, *key).slots);
            assert(self@.gens =~= spec_remove(old_model, *key).gens);
            assert(self@.ptrs =~= spec_remove(old_model, *key).ptrs);
            assert(self@.free =~= spec_remove(old_model, *key).free);
            lemma_occ_count_update(old_model.slots, key.index as int, None);
        }
    }

    /// Looks a key up for in-place mutation, under the same validity rule
    /// as [`GenVec::get`]; a stale or out-of-range key yields nothing and
    /// leaves the arena untouched. Callers re-establish well-formedness
    /// with [`lemma_wf_after_value_update`].
    pub fn get_mut(&mut self, key: &Key) -> (r: Option<&mut T>)
        ensures
            match r {
                Some(p) => {
                    &&& spec_key_live(old(self)@, *key)
                    &&& Some(*p) == old(self)@.slots[key.index as int]
                    &&& final(self)@ =~= spec_value_update(old(self)@, key.index as int, *final(p))
                },
                None => {
                    &&& !spec_key_live(old(self)@, *key)
                    &&& *final(self) == *old(self)
                },
            },
    {
        let mut valid = false;
        if key.index < self.data.len() {
            let entry = &self.data[key.index];
            if entry.generation == key.generation {
                match &entry.value {
                    Entry::Occupied { .. } => {
                        valid = true;
                    },
                    Entry::Free { .. } => {},
                }
            }
        }
        if valid {
            match &mut self.data[key.index].value {
                Entry::Occupied { value } => Some(value),
                Entry::Free { .. } => vstd::pervasive::unreached(),
            }
        } else {
            None
        }
    }

    /// Reads the value stored at a raw slot index, if that slot is
    /// occupied.
    pub fn get_at(&self, index: usize) -> (r: Option<&T>)
        ensures
            match r {
                Some(p) => index < self.slot_count() && self@.slots[index as int] == Some(*p),
                None => index as int >= self.slot_count() || self@.slots[index as int] is None,
            },
    {
        if index < self.data.len() {
            match &self.data[index].value {
                Entry::Occupied { value } => Some(value),
                Entry::Free { .. } => None,
            }
        } else {
            None
        }
    }

    /// Walks the occupied slots in ascending index order, skipping free
    /// slots, and hands out one reference per stored value.
    pub fn iter(&self) -> (r: Vec<&T>)
        ensures
            r@.len() == occ_indices(self@.slots).len(),
            forall|j: int|
                0 <= j < r@.len() ==> Some(*#[trigger] r@[j]) == self@.slots[occ_indices(
                    self@.slots,
                )[j]],
            r@.len() == self.live_count(),
    {
        let ghost slots = self@.slots;
        let mut out: Vec<&T> = Vec::new();
        let mut i: usize = 0;
        let n = self.data.len();
        while i < n
            invariant
                n as int == slots.len(),
                slots == self@.slots,
                i <= n,
                out@.len() == occ_indices_prefix(slots, i as int).len(),
                forall|j: int|
                    0 <= j < out@.len() ==> Some(*#[trigger] out@[j]) == slots[occ_indices_prefix(
                        slots,
                        i as int,
                    )[j]],
            decreases n - i,
        {
            proof {
                lemma_occ_indices_prefix_props(slots, i as int + 1);
                lemma_occ_indices_prefix_props(slots, i as int);
            }
            match &self.data[i].value {
                Entry::Occupied { value } => {
                    out.push(value);
                },
                Entry::Free { .. } => {},
            }
            i = i + 1;
        }
        proof {
            lemma_occ_indices_props(slots);
        }
        out
    }

    /// Borrows the value stored at an occupied slot for in-place
    /// mutation; generations, pointers and the free list stay as they
    /// are. Callers re-establish well-formedness with
    /// [`lemma_wf_after_value_update`].
    pub fn get_at_mut(&mut self, index: usize) -> (r: &mut T)
        requires
            index < old(self).slot_count(),
            old(self)@.slots[index as int] is Some,
        ensures
            Some(*r) == old(self)@.slots[index as int],
            final(self)@ =~= spec_value_update(old(self)@, index as int, *final(r)),
    {
        let entry = &mut self.data[index];
        match &mut entry.value {
            Entry::Occupied { value } => value,
            Entry::Free { .. } => vstd::pervasive::unreached(),
        }
    }
}

} // verus!
