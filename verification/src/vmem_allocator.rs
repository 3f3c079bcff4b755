//! Virtual Region Allocator: monotonic bump allocation of page-aligned
//! virtual ranges out of a fixed arena.  Ranges are never reused —
//! deallocation is a documented no-op, an intentional simplification for
//! a small, fixed boot-time device set, not silent data loss.

use vstd::prelude::*;
use crate::memory::{PAGE_SIZE, align_up_page, spec_align_up_page};

verus! {

/// Hands out non-overlapping, monotonically increasing ranges of virtual
/// page numbers.  An allocation of `n` pages returns the inclusive pair
/// `(first_page, last_page)`; the next allocation starts past it, so two
/// allocations can never overlap.
pub trait VmemAllocator: Sized {
    /// First page the next allocation will return.
    spec fn next_page(&self) -> u64;

    /// First page past the arena.
    spec fn limit_page(&self) -> u64;

    spec fn wf(&self) -> bool;

    /// Bump allocation.  Asking for zero pages or for more than the arena
    /// still holds is a boot-time configuration error, ruled out up front.
    fn allocate(&mut self, num_pages: u64) -> (r: (u64, u64))
        requires
            old(self).wf(),
            0 < num_pages <= old(self).limit_page() - old(self).next_page(),
        ensures
            final(self).wf(),
            r.0 == old(self).next_page(),
            r.1 == r.0 + num_pages - 1,
            final(self).next_page() == old(self).next_page() + num_pages,
            final(self).limit_page() == old(self).limit_page(),
    ;

    /// Accepted and intentionally without effect: regions are never
    /// reused, so the arena state is left exactly as it was.
    fn deallocate(&mut self, start: u64, last: u64)
        ensures
            final(self).next_page() == old(self).next_page(),
            final(self).limit_page() == old(self).limit_page(),
            final(self).wf() == old(self).wf(),
    ;
}

/// The bump allocator over a fixed arena of virtual address space.
pub struct DumbVmemAllocator {
    base: u64,
    next: u64,
    limit: u64,
}

impl DumbVmemAllocator {
    pub closed spec fn base_page(&self) -> u64 {
        self.base
    }

    /// Pages still available in the arena.
    pub open spec fn spec_available(&self) -> int {
        self.limit_page() - self.next_page()
    }

    /// Arena over `size_bytes` bytes of virtual address space starting at
    /// the page-aligned address `base_addr`, rounded up to whole pages.
    /// The arena must lie below the top of the address space by a margin
    /// that keeps every page's last byte addressable.
    pub fn new(base_addr: u64, size_bytes: u64) -> (r: DumbVmemAllocator)
        requires
            base_addr as int % (PAGE_SIZE as int) == 0,
            base_addr + size_bytes + (PAGE_SIZE - 1) < u64::MAX,
        ensures
            r.wf(),
            r.base_page() == base_addr as int / (PAGE_SIZE as int),
            r.next_page() == r.base_page(),
            r.limit_page() == spec_align_up_page(base_addr + size_bytes) / (
            PAGE_SIZE as int),
    {
        let base: u64 = base_addr / PAGE_SIZE;
        let limit: u64 = align_up_page(base_addr + size_bytes) / PAGE_SIZE;
        DumbVmemAllocator { base, next: base, limit }
    }

    pub fn available(&self) -> (r: u64)
        requires
            self.wf(),
        ensures
            r == self.spec_available(),
    {
        self.limit - self.next
    }

    /// First page the next allocation will return, as a value.
    pub fn next_page_index(&self) -> (r: u64)
        ensures
            r == self.next_page(),
    {
        self.next
    }

    pub fn used(&self) -> (r: u64)
        requires
            self.wf(),
        ensures
            r == self.next_page() - self.base_page(),
    {
        self.next - self.base
    }

    /// Checked allocation: fails — leaving the allocator untouched — when
    /// asked for zero pages or for more than the arena still holds, and
    /// otherwise allocates exactly as `allocate` does.
    pub fn try_alloc(&mut self, num_pages: u64) -> (r: Option<(u64, u64)>)
        requires
            old(self).wf(),
        ensures
            final(self).wf(),
            final(self).limit_page() == old(self).limit_page(),
            (num_pages == 0 || num_pages > old(self).spec_available()) <==> r is None,
            r is None ==> *final(self) == *old(self),
            r matches Some(range) ==> {
                &&& range.0 == old(self).next_page()
                &&& range.1 == range.0 + num_pages - 1
                &&& final(self).next_page() == old(self).next_page() + num_pages
            },
    {
        if num_pages == 0 || num_pages > self.available() {
            None
        } else {
            Some(self.allocate(num_pages))
        }
    }
}

impl VmemAllocator for DumbVmemAllocator {
    closed spec fn next_page(&self) -> u64 {
        self.next
    }

    closed spec fn limit_page(&self) -> u64 {
        self.limit
    }

    closed spec fn wf(&self) -> bool {
        self.base <= self.next <= self.limit
    }

    fn allocate(&mut self, num_pages: u64) -> (r: (u64, u64)) {
        let start = self.next;
        self.next = self.next + num_pages;
        let last = self.next - 1;
        (start, last)
    }

    fn deallocate(&mut self, start: u64, last: u64) {
    }
}

/// Successive allocations never overlap: whatever allocator implements
/// the bump contract, a range handed out by one call ends strictly below
/// the range handed out by the next, whatever sizes were asked for.
pub proof fn lemma_allocations_disjoint<A: VmemAllocator>(
    a0: A,
    a1: A,
    n1: u64,
    n2: u64,
    r1: (u64, u64),
    r2: (u64, u64),
)
    requires
        n1 > 0,
        n2 > 0,
        // outcome of a first allocation, per the `allocate` contract
        r1.0 == a0.next_page(),
        r1.1 == r1.0 + n1 - 1,
        a1.next_page() == a0.next_page() + n1,
        // outcome of a second allocation right after it
        r2.0 == a1.next_page(),
        r2.1 == r2.0 + n2 - 1,
    ensures
        r1.0 <= r1.1,
        r2.0 <= r2.1,
        r1.1 < r2.0,
{
}

} // verus!
