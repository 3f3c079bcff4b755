use apic::vmem_allocator::{DumbVmemAllocator, VmemAllocator};

#[test]
fn fresh_arena_is_unused() {
    let arena = DumbVmemAllocator::new(0x5555_5555_0000, 16 * 4096);
    assert_eq!(arena.available(), 16);
    assert_eq!(arena.used(), 0);
}

#[test]
fn arena_size_rounds_up_to_pages() {
    let arena = DumbVmemAllocator::new(0x5555_5555_0000, 3 * 4096 + 1);
    assert_eq!(arena.available(), 4);
}

#[test]
fn successive_allocations_never_overlap() {
    let mut arena = DumbVmemAllocator::new(0x5555_5555_0000, 16 * 4096);
    let base_page = 0x5555_5555_0000u64 / 4096;
    let (s1, e1) = arena.allocate(3);
    let (s2, e2) = arena.allocate(2);
    let (s3, e3) = arena.allocate(1);
    assert_eq!((s1, e1), (base_page, base_page + 2));
    assert_eq!((s2, e2), (base_page + 3, base_page + 4));
    assert_eq!((s3, e3), (base_page + 5, base_page + 5));
    assert!(e1 < s2);
    assert!(e2 < s3);
    assert_eq!(arena.used(), 6);
    assert_eq!(arena.available(), 10);
}

#[test]
fn try_alloc_of_zero_pages_fails() {
    let mut arena = DumbVmemAllocator::new(0x5555_5555_0000, 16 * 4096);
    assert_eq!(arena.try_alloc(0), None);
    assert_eq!(arena.available(), 16);
    assert_eq!(arena.used(), 0);
}

#[test]
fn try_alloc_beyond_capacity_fails_without_mutating() {
    let mut arena = DumbVmemAllocator::new(0x5555_5555_0000, 4 * 4096);
    let first = arena.try_alloc(3);
    assert!(first.is_some());
    assert_eq!(arena.try_alloc(2), None);
    assert_eq!(arena.available(), 1);
    assert_eq!(arena.used(), 3);
    let last = arena.try_alloc(1);
    assert!(last.is_some());
    assert_eq!(arena.available(), 0);
}

#[test]
fn deallocate_is_a_no_op() {
    let mut arena = DumbVmemAllocator::new(0x5555_5555_0000, 8 * 4096);
    let (s, e) = arena.allocate(4);
    arena.deallocate(s, e);
    assert_eq!(arena.available(), 4);
    assert_eq!(arena.used(), 4);
}
