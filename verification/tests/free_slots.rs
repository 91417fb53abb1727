use dora::free_slots::{align, is_aligned, FreeSlot, FreeSlots};

#[test]
fn merge_free_slots() {
    let mut free_slots = FreeSlots::new();
    free_slots.free(FreeSlot::new(0, 2));
    free_slots.free(FreeSlot::new(8, 8));
    free_slots.free(FreeSlot::new(2, 2));
    free_slots.free(FreeSlot::new(4, 4));

    assert_eq!(*free_slots.slots(), vec![FreeSlot::new(0, 16)]);

    let mut free_slots = FreeSlots::new();
    free_slots.free(FreeSlot::new(4, 8));
    free_slots.free(FreeSlot::new(0, 2));
    free_slots.free(FreeSlot::new(2, 2));

    assert_eq!(*free_slots.slots(), vec![FreeSlot::new(0, 12)]);
}

#[test]
fn alloc_free_slot() {
    let mut free_slots = FreeSlots::new();

    assert_eq!(free_slots.allocate(2, 2), None);
    free_slots.free(FreeSlot::new(0, 2));

    assert_eq!(free_slots.allocate(2, 2), Some(0));
    assert_eq!(*free_slots.slots(), Vec::new());

    free_slots.free(FreeSlot::new(0, 8));
    free_slots.free(FreeSlot::new(12, 4));
    assert_eq!(free_slots.allocate(4, 4), Some(12));
    assert_eq!(*free_slots.slots(), vec![FreeSlot::new(0, 8)]);
}

#[test]
fn free_slot_accessors() {
    let slot = FreeSlot::new(4, 12);
    assert_eq!(slot.start(), 4);
    assert_eq!(slot.size(), 12);
    assert_eq!(slot.end(), 16);
}

#[test]
fn align_rounds_up_to_next_multiple() {
    assert_eq!(align(0, 8), 0);
    assert_eq!(align(1, 8), 8);
    assert_eq!(align(8, 8), 8);
    assert_eq!(align(9, 8), 16);
    assert_eq!(align(13, 4), 16);
    assert_eq!(align(7, 1), 7);
    assert!(is_aligned(16, 8));
    assert!(!is_aligned(12, 8));
    assert!(is_aligned(0, 4));
}

fn free_all(order: &[(u32, u32)]) -> Vec<FreeSlot> {
    let mut free_slots = FreeSlots::new();
    for &(start, size) in order {
        free_slots.free(FreeSlot::new(start, size));
    }
    free_slots.slots().clone()
}

#[test]
fn coalescing_does_not_depend_on_order() {
    let spans = [(0u32, 2u32), (2, 2), (4, 4), (8, 8)];
    let orders: [[usize; 4]; 6] = [
        [0, 1, 2, 3],
        [3, 2, 1, 0],
        [0, 3, 1, 2],
        [2, 0, 3, 1],
        [1, 3, 0, 2],
        [3, 0, 2, 1],
    ];
    for order in orders.iter() {
        let seq: Vec<(u32, u32)> = order.iter().map(|&i| spans[i]).collect();
        assert_eq!(free_all(&seq), vec![FreeSlot::new(0, 16)]);
    }
}

#[test]
fn free_keeps_spans_apart_that_do_not_touch() {
    assert_eq!(
        free_all(&[(8, 4), (0, 4), (16, 4)]),
        vec![FreeSlot::new(0, 4), FreeSlot::new(8, 4), FreeSlot::new(16, 4)]
    );
}

#[test]
fn free_bridges_two_spans() {
    assert_eq!(free_all(&[(0, 4), (8, 4), (4, 4)]), vec![FreeSlot::new(0, 12)]);
    assert_eq!(
        free_all(&[(0, 4), (8, 4), (20, 4), (4, 4)]),
        vec![FreeSlot::new(0, 12), FreeSlot::new(20, 4)]
    );
}

#[test]
fn alloc_then_free_restores_the_list() {
    let mut free_slots = FreeSlots::new();
    free_slots.free(FreeSlot::new(0, 8));
    free_slots.free(FreeSlot::new(16, 16));
    let before = free_slots.slots().clone();

    let start = free_slots.allocate(4, 4).unwrap();
    assert_eq!(start, 0);
    assert_eq!(*free_slots.slots(), vec![FreeSlot::new(4, 4), FreeSlot::new(16, 16)]);
    free_slots.free(FreeSlot::new(start, 4));
    assert_eq!(*free_slots.slots(), before);
    assert_eq!(free_slots.allocate(4, 4), Some(start));
}

#[test]
fn alloc_without_neighbours_round_trip() {
    let mut free_slots = FreeSlots::new();
    free_slots.free(FreeSlot::new(24, 8));
    assert_eq!(free_slots.allocate(8, 8), Some(24));
    assert_eq!(*free_slots.slots(), Vec::new());
    free_slots.free(FreeSlot::new(24, 8));
    assert_eq!(*free_slots.slots(), vec![FreeSlot::new(24, 8)]);
    assert_eq!(free_slots.allocate(8, 8), Some(24));
}

#[test]
fn alloc_on_empty_list_finds_nothing() {
    let mut free_slots = FreeSlots::new();
    assert_eq!(free_slots.allocate(1, 1), None);
    assert_eq!(free_slots.allocate(8, 8), None);
    assert_eq!(*free_slots.slots(), Vec::new());
}

#[test]
fn alloc_picks_smallest_span_that_fits() {
    let mut free_slots = FreeSlots::new();
    free_slots.free(FreeSlot::new(0, 16));
    free_slots.free(FreeSlot::new(32, 6));
    free_slots.free(FreeSlot::new(48, 8));
    assert_eq!(free_slots.allocate(4, 4), Some(32));
    assert_eq!(
        *free_slots.slots(),
        vec![FreeSlot::new(0, 16), FreeSlot::new(36, 2), FreeSlot::new(48, 8)]
    );
}

#[test]
fn alloc_takes_first_of_equal_spans() {
    let mut free_slots = FreeSlots::new();
    free_slots.free(FreeSlot::new(0, 8));
    free_slots.free(FreeSlot::new(16, 8));
    assert_eq!(free_slots.allocate(4, 4), Some(0));
    assert_eq!(*free_slots.slots(), vec![FreeSlot::new(4, 4), FreeSlot::new(16, 8)]);
}

#[test]
fn alloc_splits_span_around_aligned_value() {
    let mut free_slots = FreeSlots::new();
    free_slots.free(FreeSlot::new(2, 14));
    assert_eq!(free_slots.allocate(4, 8), Some(8));
    assert_eq!(*free_slots.slots(), vec![FreeSlot::new(2, 6), FreeSlot::new(12, 4)]);
}

#[test]
fn alloc_uses_span_that_ends_with_the_value() {
    let mut free_slots = FreeSlots::new();
    free_slots.free(FreeSlot::new(2, 6));
    assert_eq!(free_slots.allocate(4, 4), Some(4));
    assert_eq!(*free_slots.slots(), vec![FreeSlot::new(2, 2)]);
}

#[test]
fn alloc_skips_span_too_small_once_aligned() {
    let mut free_slots = FreeSlots::new();
    free_slots.free(FreeSlot::new(2, 4));
    assert_eq!(free_slots.allocate(4, 4), None);
    assert_eq!(*free_slots.slots(), vec![FreeSlot::new(2, 4)]);
    free_slots.free(FreeSlot::new(9, 8));
    assert_eq!(free_slots.allocate(8, 8), None);
    assert_eq!(*free_slots.slots(), vec![FreeSlot::new(2, 4), FreeSlot::new(9, 8)]);
}
