//! In-memory register backends: one implementation of each hardware
//! capability over plain storage.  They make every driver runnable and
//! testable without a device — the index/window mock additionally
//! records the order of its accesses — and they are the backends the
//! end-to-end initialization scenario runs against.

use vstd::prelude::*;
use crate::ioapic::{IoApicWindow, WindowOp};
use crate::local_registers::{LocalApic, LocalApicRegisterIndex, lemma_local_reg_slot_bounds};
use crate::memory::{FrameSource, PageMapper, PageTableEntry, PageTableModel};
use crate::msr::ApicBaseMsr;

verus! {

broadcast use vstd::std_specs::hash::group_hash_axioms;

/// A zeroed register vector of the given length.
fn zeroed_registers(len: usize) -> (r: Vec<u32>)
    ensures
        r@.len() == len,
        forall|k: int| 0 <= k < len ==> r@[k] == 0,
{
    let mut v: Vec<u32> = Vec::new();
    let mut i: usize = 0;
    while i < len
        invariant
            i <= len,
            v@.len() == i,
            forall|k: int| 0 <= k < i ==> v@[k] == 0,
        decreases len - i,
    {
        v.push(0);
        i += 1;
    }
    v
}

/// Register file of a mock per-core controller: sixty-four 32-bit
/// registers held in memory.
pub struct MockLocalApic {
    pub store: Vec<u32>,
}

impl MockLocalApic {
    /// A controller whose registers all read zero.
    pub fn new() -> (r: MockLocalApic)
        ensures
            r.inv(),
            forall|k: int| 0 <= k < 64 ==> r.regs()[k] == 0,
    {
        MockLocalApic { store: zeroed_registers(64) }
    }
}

impl LocalApic for MockLocalApic {
    open spec fn regs(&self) -> Seq<u32> {
        self.store@
    }

    open spec fn inv(&self) -> bool {
        self.store@.len() == 64
    }

    fn read_reg_32(&self, index: LocalApicRegisterIndex) -> (r: u32) {
        proof {
            lemma_local_reg_slot_bounds(index);
        }
        let slot = (index.as_u32() / 16) as usize;
        self.store[slot]
    }

    fn write_reg_32(&mut self, index: LocalApicRegisterIndex, value: u32) {
        proof {
            lemma_local_reg_slot_bounds(index);
        }
        let slot = (index.as_u32() / 16) as usize;
        self.store.set(slot, value);
    }
}

/// Index/window pair of a mock I/O controller: the select latch, 256
/// 32-bit registers, and the log of every access in order.
pub struct MockIoApicWindow {
    pub store: Vec<u32>,
    pub sel_reg: u32,
    pub log: Vec<WindowOp>,
}

impl MockIoApicWindow {
    /// A controller whose registers all read zero, with an empty log.
    pub fn new() -> (r: MockIoApicWindow)
        ensures
            r.inv(),
            r.trace() == Seq::<WindowOp>::empty(),
            forall|k: int| 0 <= k < 256 ==> r.regs()[k] == 0,
    {
        let r = MockIoApicWindow { store: zeroed_registers(256), sel_reg: 0, log: Vec::new() };
        proof {
            assert(r.log@ =~= Seq::<WindowOp>::empty());
        }
        r
    }
}

impl IoApicWindow for MockIoApicWindow {
    open spec fn sel(&self) -> u32 {
        self.sel_reg
    }

    open spec fn regs(&self) -> Seq<u32> {
        self.store@
    }

    open spec fn trace(&self) -> Seq<WindowOp> {
        self.log@
    }

    open spec fn inv(&self) -> bool {
        self.store@.len() == 256 && self.sel_reg < 256
    }

    fn write_sel(&mut self, index: u32) {
        self.sel_reg = index;
        self.log.push(WindowOp::Select(index));
    }

    fn read_win(&mut self) -> (r: u32) {
        let value = self.store[self.sel_reg as usize];
        self.log.push(WindowOp::Read(value));
        value
    }

    fn write_win(&mut self, value: u32) {
        self.store.set(self.sel_reg as usize, value);
        self.log.push(WindowOp::Write(value));
    }
}

/// A mock base-enable register: one 64-bit word in memory.
pub struct MockBaseMsr {
    pub stored: u64,
}

impl MockBaseMsr {
    pub fn new(value: u64) -> (r: MockBaseMsr)
        ensures
            r.value() == value,
    {
        MockBaseMsr { stored: value }
    }
}

impl ApicBaseMsr for MockBaseMsr {
    open spec fn value(&self) -> u64 {
        self.stored
    }

    fn read(&mut self) -> (r: u64) {
        self.stored
    }

    fn write(&mut self, value: u64) {
        self.stored = value;
    }
}

/// A mock page table: the installed entries, keyed by virtual page
/// number.
pub struct MockPageTable {
    table: std::collections::HashMap<u64, PageTableEntry>,
}

impl MockPageTable {
    /// A page table with nothing mapped.
    pub fn new() -> (r: MockPageTable)
        ensures
            r.entries() == Map::<u64, PageTableEntry>::empty(),
    {
        MockPageTable { table: std::collections::HashMap::new() }
    }
}

impl PageTableModel for MockPageTable {
    closed spec fn entries(&self) -> Map<u64, PageTableEntry> {
        self.table@
    }

    fn is_mapped(&self, page: u64) -> (r: bool) {
        self.table.contains_key(&page)
    }
}

impl<F: FrameSource> PageMapper<F> for MockPageTable {
    fn map_to(&mut self, page: u64, frame: u64, flags: u64, frame_source: &mut F) {
        self.table.insert(page, PageTableEntry { frame, flags });
    }

    fn unmap(&mut self, page: u64) -> (r: u64) {
        let frame: u64 = match self.table.get(&page) {
            Some(entry) => entry.frame,
            None => {
                proof {
                    assert(false);
                }
                0
            },
        };
        self.table.remove(&page);
        frame
    }
}

/// A mock frame allocator with effectively unlimited frames: each
/// request returns the next frame number.
pub struct MockFrameSource {
    pub next_frame: u64,
}

impl MockFrameSource {
    pub fn new() -> (r: MockFrameSource) {
        MockFrameSource { next_frame: 0 }
    }
}

impl FrameSource for MockFrameSource {
    fn allocate_frame(&mut self) -> (r: Option<u64>) {
        let frame = self.next_frame;
        if self.next_frame < u64::MAX {
            self.next_frame = self.next_frame + 1;
        }
        Some(frame)
    }
}

/// Binds mock backends to virtual bases: every controller the boot
/// sequence maps answers as a zeroed in-memory register file.
pub struct MockBackendProvider;

impl MockBackendProvider {
    pub fn new() -> (r: MockBackendProvider) {
        MockBackendProvider
    }
}

impl crate::ApicBackendProvider for MockBackendProvider {
    type Local = MockLocalApic;

    type Window = MockIoApicWindow;

    fn local_at(&mut self, virtual_base: u64) -> (r: MockLocalApic) {
        MockLocalApic::new()
    }

    fn window_at(&mut self, virtual_base: u64) -> (r: MockIoApicWindow) {
        MockIoApicWindow::new()
    }
}

} // verus!
