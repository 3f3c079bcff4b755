//! Physical Region Mapper: given a page-aligned physical base and a
//! length, obtains a virtual range from the region allocator, installs
//! one page-table entry per covering page — present, writable and
//! cache-disabled — and returns the record needed to reverse the
//! mapping.  The matching unmap removes exactly the entries it created;
//! the backing frames are device memory and are not freed.

use vstd::prelude::*;
use vstd::arithmetic::div_mod::{
    lemma_div_by_multiple,
    lemma_div_is_ordered,
    lemma_fundamental_div_mod,
};
use crate::memory::{
    DEVICE_PAGE_FLAGS,
    FrameSource,
    PAGE_SIZE,
    PageMapper,
    PageTableEntry,
    align_up_page,
    lemma_align_up_page,
    page_aligned,
    spec_align_up_page,
    spec_pages_for,
};
use crate::vmem_allocator::{DumbVmemAllocator, VmemAllocator};

verus! {

/// Base and size of the virtual arena reserved for firmware-table
/// mappings.
pub const ACPI_HEAP_BASE: u64 = 0x6666_6666_0000;
pub const ACPI_HEAP_SIZE: u64 = 200 * 4096;

/// Bookkeeping of one installed mapping: the page-aligned physical base,
/// the virtual base it was mapped at, the requested length, and that
/// length rounded up to whole pages.
#[derive(Copy, Clone, Debug, PartialEq, Eq, Structural)]
pub struct PhysicalMapping {
    pub physical_start: u64,
    pub virtual_start: u64,
    pub region_length: u64,
    pub mapped_length: u64,
}

/// Why a mapping request was rejected.  Every case is fatal to the boot
/// sequence: none is retried.
#[derive(Copy, Clone, Debug, PartialEq, Eq, Structural)]
pub enum MapError {
    /// The physical base is not page-aligned; rejected before any
    /// page-table edit is attempted.
    UnalignedAddress,
    /// The virtual arena has fewer pages left than the region needs: a
    /// build-time sizing bug.
    ArenaExhausted,
    /// A target page-table slot is already occupied; an aliased mapping
    /// is never silently overwritten.
    AlreadyMapped,
}

/// The mapper: a virtual-region allocator plus, per call, a page-table
/// editor and frame source borrowed from the caller.
pub struct RegionMapper {
    pub vmem: DumbVmemAllocator,
}

/// The pages `[first, first + count)` are all absent from `entries`.
pub open spec fn region_unmapped(
    entries: Map<u64, PageTableEntry>,
    first: u64,
    count: int,
) -> bool {
    forall|p: u64| first <= p < first + count ==> !(#[trigger] entries.contains_key(p))
}

/// The pages `[first, first + count)` are all present in `entries`,
/// mapping consecutively onto the frames starting at `frame0`, with the
/// device flags.
pub open spec fn region_mapped(
    entries: Map<u64, PageTableEntry>,
    first: u64,
    count: int,
    frame0: u64,
) -> bool {
    forall|p: u64| first <= p < first + count ==> #[trigger] entries.contains_key(p)
        && entries[p] == (PageTableEntry {
        frame: (frame0 + (p - first)) as u64,
        flags: DEVICE_PAGE_FLAGS,
    })
}

/// Outside the pages `[first, first + count)`, `after` agrees with
/// `before`, key by key and value by value.
pub open spec fn entries_preserved_outside(
    before: Map<u64, PageTableEntry>,
    after: Map<u64, PageTableEntry>,
    first: u64,
    count: int,
) -> bool {
    forall|p: u64|
        #![trigger after.contains_key(p)]
        #![trigger before.contains_key(p)]
        !(first <= p < first + count) ==> after.contains_key(p) == before.contains_key(p) && (
        before.contains_key(p) ==> after[p] == before[p])
}

/// The page-aligned region covering `[address, address + size)`: the
/// containing page boundary, the offset of `address` inside it, and the
/// length from that boundary to the end of the request.  A caller with
/// an unaligned address maps the covering region and points past the
/// offset.
pub fn containing_region(address: u64, size: u64) -> (r: (u64, u64, u64))
    requires
        address + size <= u64::MAX,
    ensures
        r.0 == (address as int / (PAGE_SIZE as int)) * (PAGE_SIZE as int),
        r.0 as int % (PAGE_SIZE as int) == 0,
        r.1 == address - r.0,
        r.1 < PAGE_SIZE,
        r.2 == r.1 + size,
{
    proof {
        lemma_fundamental_div_mod(address as int, PAGE_SIZE as int);
        vstd::arithmetic::div_mod::lemma_mod_multiples_basic(
            address as int / (PAGE_SIZE as int),
            PAGE_SIZE as int,
        );
    }
    let base = (address / PAGE_SIZE) * PAGE_SIZE;
    let offset = address - base;
    (base, offset, offset + size)
}

impl RegionMapper {
    pub fn new(vmem: DumbVmemAllocator) -> (r: RegionMapper)
        ensures
            r.vmem == vmem,
    {
        RegionMapper { vmem }
    }

    /// Maps the physical region `[physical_address, physical_address +
    /// size)` into the next free virtual range.  On success the returned
    /// record gives the virtual base and the length rounded up to whole
    /// pages; each covering page is installed present, writable and
    /// cache-disabled.  Rejections, each before any page-table edit:
    /// an unaligned base, an exhausted arena, an occupied target slot.
    #[verifier::loop_isolation(false)]
    pub fn map_physical_region<F: FrameSource, M: PageMapper<F>>(
        &mut self,
        page_table: &mut M,
        frame_allocator: &mut F,
        physical_address: u64,
        size: u64,
    ) -> (r: Result<PhysicalMapping, MapError>)
        requires
            old(self).vmem.wf(),
            size > 0,
            physical_address + size + (PAGE_SIZE - 1) <= u64::MAX,
            old(self).vmem.limit_page() * (PAGE_SIZE as int) + (PAGE_SIZE - 1) <= u64::MAX,
        ensures
            final(self).vmem.wf(),
            final(self).vmem.limit_page() == old(self).vmem.limit_page(),
            r == Err::<PhysicalMapping, MapError>(MapError::UnalignedAddress)
                <==> !page_aligned(physical_address),
            page_aligned(physical_address) ==> (r == Err::<PhysicalMapping, MapError>(
                MapError::ArenaExhausted,
            ) <==> spec_pages_for(size as int) > old(self).vmem.spec_available()),
            (page_aligned(physical_address) && spec_pages_for(size as int) <= old(
                self,
            ).vmem.spec_available()) ==> (r == Err::<PhysicalMapping, MapError>(
                MapError::AlreadyMapped,
            ) <==> !region_unmapped(
                old(page_table).entries(),
                old(self).vmem.next_page(),
                spec_pages_for(size as int),
            )),
            r is Err ==> *final(self) == *old(self) && final(page_table).entries() == old(
                page_table,
            ).entries(),
            r matches Ok(m) ==> {
                let pages = spec_pages_for(size as int);
                let vpage0 = old(self).vmem.next_page();
                let fpage0 = (physical_address as int / (PAGE_SIZE as int)) as u64;
                &&& m.physical_start == physical_address
                &&& m.virtual_start == vpage0 * (PAGE_SIZE as int)
                &&& m.region_length == size
                &&& m.mapped_length == spec_align_up_page(size as int)
                &&& final(self).vmem.next_page() == vpage0 + pages
                &&& region_mapped(final(page_table).entries(), vpage0, pages, fpage0)
                &&& entries_preserved_outside(
                    old(page_table).entries(),
                    final(page_table).entries(),
                    vpage0,
                    pages,
                )
            },
    {
        if physical_address % PAGE_SIZE != 0 {
            return Err(MapError::UnalignedAddress);
        }
        let layout_size = align_up_page(size);
        proof {
            lemma_align_up_page(size as int);
            lemma_div_by_multiple(spec_pages_for(size as int), PAGE_SIZE as int);
            // one page at least: size is positive, so the rounded length
            // holds a page
            lemma_div_is_ordered(PAGE_SIZE as int, size + (PAGE_SIZE - 1), PAGE_SIZE as int);
            assert(PAGE_SIZE as int / PAGE_SIZE as int == 1);
        }
        let num_pages = layout_size / PAGE_SIZE;
        if num_pages > self.available_pages() {
            return Err(MapError::ArenaExhausted);
        }
        let start_page = self.next_free_page();
        let frame0 = physical_address / PAGE_SIZE;
        proof {
            lemma_fundamental_div_mod(physical_address as int, PAGE_SIZE as int);
            assert(frame0 * (PAGE_SIZE as int) <= physical_address);
            assert((frame0 + num_pages) * (PAGE_SIZE as int) == frame0 * (PAGE_SIZE as int)
                + num_pages * (PAGE_SIZE as int));
            assert(frame0 + num_pages <= (frame0 + num_pages) * (PAGE_SIZE as int));
            assert(frame0 + num_pages <= u64::MAX);
            assert(start_page * (PAGE_SIZE as int) <= self.vmem.limit_page() * (PAGE_SIZE as int));
        }

        // refuse aliasing before any edit
        let mut j: u64 = 0;
        while j < num_pages
            invariant
                j <= num_pages,
                region_unmapped(page_table.entries(), start_page, j as int),
            decreases num_pages - j,
        {
            if page_table.is_mapped(start_page + j) {
                return Err(MapError::AlreadyMapped);
            }
            j += 1;
        }

        let (first, _last) = self.vmem.allocate(num_pages);

        let ghost entries0 = page_table.entries();
        let mut i: u64 = 0;
        while i < num_pages
            invariant
                i <= num_pages,
                region_mapped(page_table.entries(), start_page, i as int, frame0),
                entries_preserved_outside(entries0, page_table.entries(), start_page, i as int),
            decreases num_pages - i,
        {
            page_table.map_to(start_page + i, frame0 + i, DEVICE_PAGE_FLAGS, frame_allocator);
            i += 1;
        }

        Ok(
            PhysicalMapping {
                physical_start: physical_address,
                virtual_start: start_page * PAGE_SIZE,
                region_length: size,
                mapped_length: layout_size,
            },
        )
    }

    /// Removes exactly the page-table entries the given record stands
    /// for, one per covering page, and nothing else.  The virtual range
    /// is not returned to the arena: regions are never reused.
    #[verifier::loop_isolation(false)]
    pub fn unmap_physical_region<F: FrameSource, M: PageMapper<F>>(
        &mut self,
        page_table: &mut M,
        region: PhysicalMapping,
    )
        requires
            region.virtual_start as int % (PAGE_SIZE as int) == 0,
            region.mapped_length as int % (PAGE_SIZE as int) == 0,
            region.virtual_start + region.mapped_length <= u64::MAX,
            forall|p: u64|
                region.virtual_start as int / (PAGE_SIZE as int) <= p < region.virtual_start as int
                    / (PAGE_SIZE as int) + region.mapped_length as int / (PAGE_SIZE as int)
                    ==> #[trigger] old(page_table).entries().contains_key(p),
        ensures
            *final(self) == *old(self),
            region_unmapped(
                final(page_table).entries(),
                (region.virtual_start as int / (PAGE_SIZE as int)) as u64,
                region.mapped_length as int / (PAGE_SIZE as int),
            ),
            entries_preserved_outside(
                old(page_table).entries(),
                final(page_table).entries(),
                (region.virtual_start as int / (PAGE_SIZE as int)) as u64,
                region.mapped_length as int / (PAGE_SIZE as int),
            ),
    {
        let start_page = region.virtual_start / PAGE_SIZE;
        let num_pages = region.mapped_length / PAGE_SIZE;
        proof {
            lemma_fundamental_div_mod(region.virtual_start as int, PAGE_SIZE as int);
            lemma_fundamental_div_mod(region.mapped_length as int, PAGE_SIZE as int);
        }
        let ghost entries0 = page_table.entries();
        let mut j: u64 = 0;
        while j < num_pages
            invariant
                j <= num_pages,
                region_unmapped(page_table.entries(), start_page, j as int),
                entries_preserved_outside(entries0, page_table.entries(), start_page, j as int),
            decreases num_pages - j,
        {
            let _frame = page_table.unmap(start_page + j);
            j += 1;
        }
    }

    /// Pages still available in the arena.
    pub fn available_pages(&self) -> (r: u64)
        requires
            self.vmem.wf(),
        ensures
            r == self.vmem.spec_available(),
    {
        self.vmem.available()
    }

    /// First page the next mapping will occupy.
    pub fn next_free_page(&self) -> (r: u64)
        requires
            self.vmem.wf(),
        ensures
            r == self.vmem.next_page(),
    {
        self.vmem.next_page_index()
    }
}

/// Mapping a free region and then unmapping it restores the page table
/// to exactly its prior state: the map installed only the region's
/// entries into empty slots, and the unmap removed only them.
pub proof fn lemma_map_then_unmap_restores(
    m0: Map<u64, PageTableEntry>,
    m1: Map<u64, PageTableEntry>,
    m2: Map<u64, PageTableEntry>,
    first: u64,
    count: int,
    frame0: u64,
)
    requires
        0 <= count,
        first + count <= u64::MAX,
        region_unmapped(m0, first, count),
        region_mapped(m1, first, count, frame0),
        entries_preserved_outside(m0, m1, first, count),
        region_unmapped(m2, first, count),
        entries_preserved_outside(m1, m2, first, count),
    ensures
        m2 == m0,
{
    assert forall|p: u64| m2.contains_key(p) == m0.contains_key(p) && (m0.contains_key(p)
        ==> m2[p] == m0[p]) by {
        if first <= p < first + count {
            assert(!m0.contains_key(p));
            assert(!m2.contains_key(p));
        } else {
            assert(m1.contains_key(p) == m0.contains_key(p));
            assert(m2.contains_key(p) == m1.contains_key(p));
        }
    }
    assert(m2 =~= m0);
}

} // verus!
