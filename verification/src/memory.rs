//! Paging primitives consumed as capabilities: page-size arithmetic, the
//! page-table editor and frame-allocator traits, and the single-page map
//! helper.  A page table is modelled as a map from virtual page numbers
//! to entries (frame number plus flags); addresses and page numbers are
//! plain 64-bit values, an address being its page number times the page
//! size.

use vstd::prelude::*;
use vstd::arithmetic::div_mod::{lemma_fundamental_div_mod, lemma_mod_multiples_basic};

verus! {

pub const PAGE_SIZE: u64 = 4096;

/// Page-table entry flags, as bits of a 64-bit flag word.
pub const PAGE_PRESENT: u64 = 0x1;
pub const PAGE_WRITABLE: u64 = 0x2;
pub const PAGE_NO_CACHE: u64 = 0x10;

/// The flags every device mapping is installed with: present, writable,
/// and cache-disabled — device registers must never be cached.
pub const DEVICE_PAGE_FLAGS: u64 = 0x1 | 0x2 | 0x10;

pub open spec fn page_aligned(addr: u64) -> bool {
    addr as int % (PAGE_SIZE as int) == 0
}

/// Number of pages covering `len` bytes: `len` rounded up, in pages.
pub open spec fn spec_pages_for(len: int) -> int {
    (len + (PAGE_SIZE - 1)) / (PAGE_SIZE as int)
}

/// `x` rounded up to the next page boundary.
pub open spec fn spec_align_up_page(x: int) -> int {
    spec_pages_for(x) * (PAGE_SIZE as int)
}

/// Rounding up to a page boundary lands on a page boundary, moves no
/// byte downward, and moves it up by less than a page.
pub proof fn lemma_align_up_page(x: int)
    requires
        0 <= x,
    ensures
        spec_align_up_page(x) % (PAGE_SIZE as int) == 0,
        x <= spec_align_up_page(x) < x + (PAGE_SIZE as int),
        spec_align_up_page(x) == spec_pages_for(x) * (PAGE_SIZE as int),
{
    let d = x + (PAGE_SIZE - 1);
    let q = d / (PAGE_SIZE as int);
    lemma_fundamental_div_mod(d, PAGE_SIZE as int);
    lemma_mod_multiples_basic(q, PAGE_SIZE as int);
}

pub fn align_up_page(addr: u64) -> (r: u64)
    requires
        addr + (PAGE_SIZE - 1) <= u64::MAX,
    ensures
        r == spec_align_up_page(addr as int),
        r % PAGE_SIZE == 0,
        addr <= r < addr + PAGE_SIZE,
{
    proof {
        lemma_align_up_page(addr as int);
    }
    ((addr + (PAGE_SIZE - 1)) / PAGE_SIZE) * PAGE_SIZE
}

/// One installed page-table entry: the physical frame number the page
/// maps to, and the flag word it was installed with.
#[derive(Copy, Clone, Debug, PartialEq, Eq, Structural)]
pub struct PageTableEntry {
    pub frame: u64,
    pub flags: u64,
}

/// A source of physical frames, consumed when the page-table editor needs
/// backing memory for intermediate tables.  Nothing is promised of the
/// returned frame number: how much memory the machine has left is not a
/// property of the arguments.
pub trait FrameSource: Sized {
    fn allocate_frame(&mut self) -> (r: Option<u64>);
}

/// The model of a page table: the set of installed entries, keyed by
/// virtual page number.
pub trait PageTableModel: Sized {
    /// The installed entries.  (The default makes the model optional
    /// for unverified backends outside this crate; one that keeps it
    /// satisfies no caller's expectations.)
    open spec fn entries(&self) -> Map<u64, PageTableEntry> {
        Map::empty()
    }

    fn is_mapped(&self, page: u64) -> (r: bool)
        ensures
            r == self.entries().contains_key(page),
    ;
}

/// A page-table editor, the capability through which every mapping is
/// installed or removed, over a given source of backing frames.
pub trait PageMapper<F: FrameSource>: PageTableModel {
    /// Installs one entry.  The slot must be empty: an aliased mapping is
    /// a programming error, never silently overwritten.  The editor may
    /// draw frames for intermediate tables from `frame_source`.
    fn map_to(&mut self, page: u64, frame: u64, flags: u64, frame_source: &mut F)
        requires
            !old(self).entries().contains_key(page),
        ensures
            final(self).entries() == old(self).entries().insert(
                page,
                PageTableEntry { frame, flags },
            ),
    ;

    /// Removes one entry, flushing it from the translation cache, and
    /// returns the frame number it pointed to.  The frame itself is not
    /// freed: for device regions it is not general-purpose memory.
    fn unmap(&mut self, page: u64) -> (r: u64)
        requires
            old(self).entries().contains_key(page),
        ensures
            final(self).entries() == old(self).entries().remove(page),
            r == old(self).entries()[page].frame,
    ;
}

/// Maps the page covering `addr` at the given virtual page and returns
/// the virtual address corresponding to `addr` inside it.
pub fn map_page<F: FrameSource, M: PageMapper<F>>(
    page: u64,
    addr: u64,
    mapper: &mut M,
    frame_allocator: &mut F,
    flags: u64,
) -> (r: u64)
    requires
        !old(mapper).entries().contains_key(page),
        page * (PAGE_SIZE as int) + (PAGE_SIZE - 1) <= u64::MAX,
    ensures
        final(mapper).entries() == old(mapper).entries().insert(
            page,
            PageTableEntry { frame: (addr as int / (PAGE_SIZE as int)) as u64, flags },
        ),
        r == page * (PAGE_SIZE as int) + addr as int % (PAGE_SIZE as int),
{
    let frame: u64 = addr / PAGE_SIZE;
    mapper.map_to(page, frame, flags, frame_allocator);
    let offset: u64 = addr % PAGE_SIZE;
    page * PAGE_SIZE + offset
}

} // verus!
