use apic::mapping::{MapError, RegionMapper};
use apic::memory::{PageMapper, PageTableModel, DEVICE_PAGE_FLAGS, PAGE_SIZE};
use apic::mock::{MockFrameSource, MockPageTable};
use apic::vmem_allocator::DumbVmemAllocator;

const ARENA_BASE: u64 = 0x6666_6666_0000;

fn fresh_mapper(pages: u64) -> RegionMapper {
    RegionMapper::new(DumbVmemAllocator::new(ARENA_BASE, pages * PAGE_SIZE))
}

#[test]
fn containing_region_covers_an_unaligned_address() {
    let (base, offset, length) = apic::mapping::containing_region(0x000E_0040, 100);
    assert_eq!(base, 0x000E_0000);
    assert_eq!(offset, 0x40);
    assert_eq!(length, 0x40 + 100);

    let (base, offset, length) = apic::mapping::containing_region(0xFEC0_0000, 4096);
    assert_eq!(base, 0xFEC0_0000);
    assert_eq!(offset, 0);
    assert_eq!(length, 4096);
}

#[test]
fn mapped_length_is_length_rounded_up() {
    let mut mapper = fresh_mapper(16);
    let mut pt = MockPageTable::new();
    let mut frames = MockFrameSource::new();
    let record = mapper
        .map_physical_region(&mut pt, &mut frames, 0xFEC0_0000, 5000)
        .unwrap();
    assert_eq!(record.physical_start, 0xFEC0_0000);
    assert_eq!(record.region_length, 5000);
    assert_eq!(record.mapped_length, 2 * PAGE_SIZE);
    assert_eq!(record.virtual_start, ARENA_BASE);
}

#[test]
fn map_then_unmap_restores_the_page_table() {
    let mut mapper = fresh_mapper(16);
    let mut pt = MockPageTable::new();
    let mut frames = MockFrameSource::new();
    let record = mapper
        .map_physical_region(&mut pt, &mut frames, 0xFEC0_0000, 3 * PAGE_SIZE)
        .unwrap();
    let first_page = record.virtual_start / PAGE_SIZE;
    for i in 0..3 {
        assert!(pt.is_mapped(first_page + i));
    }
    mapper.unmap_physical_region::<MockFrameSource, MockPageTable>(&mut pt, record);
    for i in 0..3 {
        assert!(!pt.is_mapped(first_page + i));
    }
}

#[test]
fn unaligned_physical_base_is_rejected_first() {
    let mut mapper = fresh_mapper(16);
    let mut pt = MockPageTable::new();
    let mut frames = MockFrameSource::new();
    let r = mapper.map_physical_region(&mut pt, &mut frames, 0xFEC0_0001, 4096);
    assert_eq!(r, Err(MapError::UnalignedAddress));
    assert!(!pt.is_mapped(ARENA_BASE / PAGE_SIZE));
    assert_eq!(mapper.available_pages(), 16);
}

#[test]
fn exhausted_arena_is_rejected() {
    let mut mapper = fresh_mapper(2);
    let mut pt = MockPageTable::new();
    let mut frames = MockFrameSource::new();
    let r = mapper.map_physical_region(&mut pt, &mut frames, 0xFEC0_0000, 3 * PAGE_SIZE);
    assert_eq!(r, Err(MapError::ArenaExhausted));
    assert_eq!(mapper.available_pages(), 2);
}

#[test]
fn occupied_target_slot_is_rejected_before_any_edit() {
    let mut mapper = fresh_mapper(16);
    let mut pt = MockPageTable::new();
    let mut frames = MockFrameSource::new();
    let second_page = ARENA_BASE / PAGE_SIZE + 1;
    PageMapper::<MockFrameSource>::map_to(&mut pt, second_page, 0x99, DEVICE_PAGE_FLAGS, &mut frames);
    let r = mapper.map_physical_region(&mut pt, &mut frames, 0xFEC0_0000, 2 * PAGE_SIZE);
    assert_eq!(r, Err(MapError::AlreadyMapped));
    // nothing was edited: the first target page is still free, and the
    // arena still holds every page
    assert!(!pt.is_mapped(ARENA_BASE / PAGE_SIZE));
    assert_eq!(mapper.available_pages(), 16);
}

#[test]
fn distinct_regions_get_distinct_ranges() {
    let mut mapper = fresh_mapper(16);
    let mut pt = MockPageTable::new();
    let mut frames = MockFrameSource::new();
    let a = mapper
        .map_physical_region(&mut pt, &mut frames, 0xFEC0_0000, 4096)
        .unwrap();
    let b = mapper
        .map_physical_region(&mut pt, &mut frames, 0xFEE0_0000, 4096)
        .unwrap();
    assert_ne!(a.virtual_start, b.virtual_start);
    assert_eq!(b.virtual_start, a.virtual_start + PAGE_SIZE);
}
