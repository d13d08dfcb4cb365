//! The generational arena: key validity, slot reuse, iteration order.

use rigid2d::gen_vec::GenVec;

#[test]
fn insert_then_get_returns_value() {
    let mut arena: GenVec<u32> = GenVec::new();
    let k = arena.insert(7);
    assert_eq!(arena.get(&k), Some(&7));
    assert_eq!(arena.len(), 1);
}

#[test]
fn removed_key_never_matches_again() {
    let mut arena: GenVec<u32> = GenVec::new();
    let k = arena.insert(1);
    arena.remove(&k);
    assert_eq!(arena.get(&k), None);
    // The slot is reoccupied by a later insertion, at a new generation.
    let k2 = arena.insert(2);
    assert_eq!(arena.get(&k), None);
    assert_eq!(arena.get(&k2), Some(&2));
    // Even more churn never revives the stale key.
    arena.remove(&k2);
    let k3 = arena.insert(3);
    assert_eq!(arena.get(&k), None);
    assert_eq!(arena.get(&k2), None);
    assert_eq!(arena.get(&k3), Some(&3));
}

#[test]
fn remove_with_stale_key_is_a_no_op() {
    let mut arena: GenVec<u32> = GenVec::new();
    let k = arena.insert(1);
    arena.remove(&k);
    let k2 = arena.insert(2);
    // Removing with the stale key must not free the new occupant.
    arena.remove(&k);
    assert_eq!(arena.get(&k2), Some(&2));
}

#[test]
fn reinserting_after_removing_reuses_all_slots() {
    let mut arena: GenVec<u32> = GenVec::new();
    let mut keys = Vec::new();
    for v in 0..5u32 {
        keys.push(arena.insert(v));
    }
    assert_eq!(arena.len(), 5);
    for k in &keys {
        arena.remove(k);
    }
    assert_eq!(arena.len(), 5);
    for v in 10..15u32 {
        arena.insert(v);
    }
    // The second batch reuses the freed slots: no growth at all.
    assert_eq!(arena.len(), 5);
    for k in &keys {
        assert_eq!(arena.get(k), None);
    }
}

#[test]
fn iter_yields_live_values_in_slot_order_once_each() {
    let mut arena: GenVec<u32> = GenVec::new();
    let mut keys = Vec::new();
    for v in [10u32, 11, 12, 13, 14, 15] {
        keys.push(arena.insert(v));
    }
    // Interleave removals: drop two of the six.
    arena.remove(&keys[1]);
    arena.remove(&keys[4]);
    let seen: Vec<u32> = arena.iter().into_iter().map(|v| *v).collect();
    assert_eq!(seen, vec![10, 12, 13, 15]);
}

#[test]
fn iter_after_reuse_keeps_slot_order() {
    let mut arena: GenVec<u32> = GenVec::new();
    let k0 = arena.insert(0);
    let _k1 = arena.insert(1);
    let _k2 = arena.insert(2);
    arena.remove(&k0);
    // Slot 0 is reused: the new value appears first again.
    arena.insert(99);
    let seen: Vec<u32> = arena.iter().into_iter().map(|v| *v).collect();
    assert_eq!(seen, vec![99, 1, 2]);
}

#[test]
fn get_mut_updates_in_place() {
    let mut arena: GenVec<u32> = GenVec::new();
    let k = arena.insert(5);
    match arena.get_mut(&k) {
        Some(v) => {
            *v = 50;
        },
        None => panic!("live key must look up"),
    }
    assert_eq!(arena.get(&k), Some(&50));
    arena.remove(&k);
    assert!(arena.get_mut(&k).is_none());
}

#[test]
fn out_of_range_key_is_absorbed() {
    let mut arena: GenVec<u32> = GenVec::new();
    let k = arena.insert(1);
    let mut other: GenVec<u32> = GenVec::new();
    // A key from a different, larger arena is simply not found.
    let _ = other.insert(9);
    let far = {
        let mut a: GenVec<u32> = GenVec::new();
        a.insert(0);
        a.insert(0);
        a.insert(0)
    };
    assert_eq!(arena.get(&far), None);
    arena.remove(&far);
    assert_eq!(arena.get(&k), Some(&1));
}
