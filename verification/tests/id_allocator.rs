use std::collections::HashSet;

use sysyust::id_allocator::{DefaultIdAllocator, Id, IdAllocator};

const REPEATE_TIME: usize = 1000;

#[test]
fn id_equal() {
    let id1 = Id(1);
    let id2 = Id(1);
    let id3 = Id(3);
    let id4 = Id(3);
    assert_eq!(id1, id2);
    assert_ne!(id1, id3);
    assert_eq!(id3, id4);
}

#[test]
fn id_allocator_never_repeate() {
    let mut s = HashSet::new();
    let mut ida = DefaultIdAllocator::new();

    for _ in 0..REPEATE_TIME {
        s.insert(ida.new_id());
    }
    assert_eq!(REPEATE_TIME, s.len());
    s.into_iter().for_each(|e| ida.drop_id(e));
}

#[test]
fn ids_count_up_from_zero() {
    let mut ida = DefaultIdAllocator::new();
    assert_eq!(ida.new_id(), Id(0));
    assert_eq!(ida.new_id(), Id(1));
    assert_eq!(ida.new_id(), Id(2));
}

#[test]
fn dropped_id_is_not_handed_out_again() {
    let mut ida = DefaultIdAllocator::new();
    let first = ida.new_id();
    assert_eq!(first, Id(0));
    ida.drop_id(first);
    assert_eq!(ida.new_id(), Id(1));
}
