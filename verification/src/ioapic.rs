//! I/O interrupt controller driver: reads identity, version and the
//! redirection-entry capacity through an index/window register pair, and
//! reads and writes the 64-bit redirection entries that route global
//! system interrupts.
//!
//! A 32-bit access first writes the register index to the select
//! register at the mapped base, then touches the window register at
//! `base + 0x10`.  A 64-bit access decomposes into two such round-trips
//! at consecutive indices, low word first both on read and on write —
//! the orderings must agree for round-trips to hold.  The capability
//! trait models the device as 256 32-bit registers plus the select
//! latch, and keeps a trace of every select, read and write, so that
//! access order is part of every contract.

use vstd::prelude::*;

verus! {

/// 32-bit registers of the I/O controller, by select index.
#[derive(Copy, Clone, Debug, PartialEq, Eq, Structural)]
pub enum IoApicReg {
    Id,
    Version,
}

/// The select index of each named register.
pub open spec fn spec_io_reg_u8(reg: IoApicReg) -> u8 {
    match reg {
        IoApicReg::Id => 0x0,
        IoApicReg::Version => 0x1,
    }
}

impl IoApicReg {
    pub fn as_u8(self) -> (r: u8)
        ensures
            r == spec_io_reg_u8(self),
    {
        match self {
            IoApicReg::Id => 0x0,
            IoApicReg::Version => 0x1,
        }
    }

    pub fn as_u32(self) -> (r: u32)
        ensures
            r == spec_io_reg_u8(self) as u32,
    {
        self.as_u8() as u32
    }
}

/// 64-bit registers of the I/O controller: the redirection entry of one
/// interrupt line, split across two consecutive select indices.
#[derive(Copy, Clone, Debug, PartialEq, Eq, Structural)]
pub enum IoApic64BitRegisterIndex {
    RedirectionEntry(u8),
}

/// Field masks of a 64-bit redirection entry.
pub const REDIR_VECTOR: u64 = 0x00000000_000000ff;
pub const REDIR_DELIVERY_MODE: u64 = 0x00000000_00000700;
pub const REDIR_DESTINATION_MODE: u64 = 0x00000000_00000800;
pub const REDIR_DELIVERY_STATUS: u64 = 0x00000000_00001000;
pub const REDIR_PIN_POLARITY: u64 = 0x00000000_00002000;
pub const REDIR_REMOTE_IRR: u64 = 0x00000000_00004000;
pub const REDIR_TRIGGER_MODE: u64 = 0x00000000_00008000;
pub const REDIR_MASK: u64 = 0x00000000_00010000;
pub const REDIR_RESERVED: u64 = 0x00ffffff_fffe0000;
pub const REDIR_DESTINATION: u64 = 0xff000000_00000000;

/// Union of every named field mask: the fields cover the whole word.
pub const REDIR_ALL: u64 = 0xffffffff_ffffffff;

/// A 64-bit redirection entry value.
///
/// Reserved-bit policy: a value is written to the device verbatim,
/// reserved bits included; a value read back has its reserved bits
/// masked to zero before the typed value is rebuilt, so an unexpected
/// reserved pattern can never make the read fail.
#[derive(Copy, Clone, Debug, PartialEq, Eq, Structural)]
pub struct RedirectionEntry {
    pub bits: u64,
}

impl RedirectionEntry {
    /// Accepts a word exactly when it holds no bit outside the named
    /// fields; as those cover all sixty-four bits, every word is
    /// accepted.
    pub fn from_bits(bits: u64) -> (r: Option<RedirectionEntry>)
        ensures
            r == Some(RedirectionEntry { bits }),
    {
        proof {
            assert(bits & !0xffffffff_ffffffffu64 == 0) by (bit_vector);
        }
        if bits & !REDIR_ALL == 0 {
            Some(RedirectionEntry { bits })
        } else {
            None
        }
    }

    pub fn bits(self) -> (r: u64)
        ensures
            r == self.bits,
    {
        self.bits
    }

    /// The interrupt vector, bits 0 through 7.
    pub fn vector(self) -> (r: u8)
        ensures
            r == self.bits & REDIR_VECTOR,
    {
        proof {
            let b = self.bits;
            assert(b & 0xffu64 <= 0xff) by (bit_vector);
        }
        (self.bits & REDIR_VECTOR) as u8
    }

    /// The delivery mode, bits 8 through 10; three bits always decode.
    pub fn delivery_mode(self) -> (r: crate::icr::DeliveryMode)
        ensures
            Some(r) == crate::icr::spec_delivery_mode_of(((self.bits >> 8) & 0x7) as u8),
    {
        let b = self.bits;
        let byte: u8 = ((b & REDIR_DELIVERY_MODE) >> 8) as u8;
        proof {
            assert((b & 0x700u64) >> 8 == (b >> 8) & 0x7u64) by (bit_vector);
            assert(((b & 0x700u64) >> 8) as u8 <= 7) by (bit_vector);
        }
        match crate::icr::DeliveryMode::try_from(byte) {
            Ok(m) => m,
            Err(_) => {
                proof {
                    assert(false);
                }
                crate::icr::DeliveryMode::Fixed
            },
        }
    }

    /// Whether the interrupt line is masked, bit 16.
    pub fn masked(self) -> (r: bool)
        ensures
            r == (self.bits & REDIR_MASK != 0),
    {
        self.bits & REDIR_MASK != 0
    }

    /// The destination field, bits 56 through 63.
    pub fn destination(self) -> (r: u8)
        ensures
            r == self.bits >> 56,
    {
        proof {
            let b = self.bits;
            assert(b >> 56 <= 0xff) by (bit_vector);
        }
        (self.bits >> 56) as u8
    }
}

/// One access through the index/window pair, as a mock backend records
/// it: a write of the select register, or a read or write of the window
/// register.
#[derive(Copy, Clone, Debug, PartialEq, Eq, Structural)]
pub enum WindowOp {
    Select(u32),
    Read(u32),
    Write(u32),
}

/// The index/window register-access capability.  The model is the
/// select latch, the 256 32-bit registers behind it, and the trace of
/// every access made so far.
pub trait IoApicWindow: Sized {
    /// Current value of the select register.  (The ghost members carry
    /// defaults so that unverified backends outside this crate need only
    /// provide the access methods; a backend that keeps the defaults has
    /// a false invariant and so satisfies no driver contract.)
    open spec fn sel(&self) -> u32 {
        0
    }

    /// The 32-bit registers, by select index.
    open spec fn regs(&self) -> Seq<u32> {
        Seq::empty()
    }

    /// Every access made so far, oldest first.
    open spec fn trace(&self) -> Seq<WindowOp> {
        Seq::empty()
    }

    /// Whether the backend is well formed: a true invariant stands for
    /// a register file of 256 registers with the select latch inside
    /// it.
    open spec fn inv(&self) -> bool {
        false
    }

    /// Writes the select register, choosing which register the window
    /// shows.
    fn write_sel(&mut self, index: u32)
        requires
            old(self).inv(),
            index < 256,
        ensures
            final(self).inv(),
            final(self).sel() == index,
            final(self).regs() == old(self).regs(),
            final(self).trace() == old(self).trace().push(WindowOp::Select(index)),
    ;

    /// Reads the window register: the register the select latch points
    /// at.
    fn read_win(&mut self) -> (r: u32)
        requires
            old(self).inv(),
        ensures
            final(self).inv(),
            r == old(self).regs()[old(self).sel() as int],
            final(self).sel() == old(self).sel(),
            final(self).regs() == old(self).regs(),
            final(self).trace() == old(self).trace().push(WindowOp::Read(r)),
    ;

    /// Writes the window register: the register the select latch points
    /// at.
    fn write_win(&mut self, value: u32)
        requires
            old(self).inv(),
        ensures
            final(self).inv(),
            final(self).sel() == old(self).sel(),
            final(self).regs() == old(self).regs().update(old(self).sel() as int, value),
            final(self).trace() == old(self).trace().push(WindowOp::Write(value)),
    ;
}

/// Select index of the low word of redirection entry `irq`.
pub open spec fn spec_redir_lo_index(irq: u8) -> u32 {
    (0x10 + 2 * (irq as u32)) as u32
}

/// Select index of the high word of redirection entry `irq`.
pub open spec fn spec_redir_hi_index(irq: u8) -> u32 {
    (0x11 + 2 * (irq as u32)) as u32
}

/// The 64-bit value spread over the two words of redirection entry
/// `irq`: low word at the even index, high word right above it.
pub open spec fn spec_entry64(regs: Seq<u32>, irq: u8) -> u64 {
    (regs[spec_redir_lo_index(irq) as int] as u64) | ((regs[spec_redir_hi_index(irq) as int]
        as u64) << 32)
}

/// Driver of one I/O interrupt controller, bound to an already-mapped
/// index/window pair.  Each instance is solely responsible for the
/// global interrupt numbers from `interrupt_base` up through its highest
/// redirection entry.
pub struct MappedIoApic<W: IoApicWindow> {
    /// Firmware-reported identity of this controller.
    pub id: u8,
    /// Virtual base address the window was mapped at.
    pub base_addr: u64,
    /// First global system interrupt this controller is responsible for.
    pub interrupt_base: u32,
    /// Highest valid redirection-entry index, as read from the version
    /// register by `init`; zero until then.
    pub max_redir_entry: u8,
    /// The index/window access capability.
    pub window: W,
}

/// Diagnostic identity of an I/O controller, read once at
/// initialization.
#[derive(Copy, Clone, Debug, PartialEq, Eq, Structural)]
pub struct IoApicDiagnostics {
    pub id: u8,
    pub version: u8,
    pub max_redir_entry: u8,
}

/// The diagnostic dump determined by a register file: the identity
/// decode of register zero, and the version and redirection capacity
/// fields of register one.
pub open spec fn spec_io_diagnostics(regs: Seq<u32>) -> IoApicDiagnostics {
    IoApicDiagnostics {
        id: ((regs[0] >> 24) & 0xf0) as u8,
        version: regs[1] as u8,
        max_redir_entry: ((regs[1] >> 16) & 0xff) as u8,
    }
}

impl<W: IoApicWindow> MappedIoApic<W> {
    /// Binds a driver to an already-mapped window.
    pub fn new(window: W, id: u8, base_addr: u64, interrupt_base: u32) -> (r: MappedIoApic<W>)
        ensures
            r.id == id,
            r.base_addr == base_addr,
            r.interrupt_base == interrupt_base,
            r.max_redir_entry == 0,
            r.window == window,
    {
        MappedIoApic { id, base_addr, interrupt_base, max_redir_entry: 0, window }
    }

    /// One select write followed by one window read.
    pub fn read_reg_32(&mut self, index: u32) -> (r: u32)
        requires
            old(self).window.inv(),
            index < 256,
        ensures
            final(self).window.inv(),
            r == old(self).window.regs()[index as int],
            final(self).window.regs() == old(self).window.regs(),
            final(self).window.sel() == index,
            final(self).window.trace() == old(self).window.trace() + seq![
                WindowOp::Select(index),
                WindowOp::Read(r),
            ],
            final(self).id == old(self).id,
            final(self).base_addr == old(self).base_addr,
            final(self).interrupt_base == old(self).interrupt_base,
            final(self).max_redir_entry == old(self).max_redir_entry,
    {
        self.window.write_sel(index);
        let value = self.window.read_win();
        proof {
            assert(self.window.trace() =~= old(self).window.trace() + seq![
                WindowOp::Select(index),
                WindowOp::Read(value),
            ]);
        }
        value
    }

    /// One select write followed by one window write.
    pub fn write_reg_32(&mut self, index: u32, value: u32)
        requires
            old(self).window.inv(),
            index < 256,
        ensures
            final(self).window.inv(),
            final(self).window.regs() == old(self).window.regs().update(index as int, value),
            final(self).window.sel() == index,
            final(self).window.trace() == old(self).window.trace() + seq![
                WindowOp::Select(index),
                WindowOp::Write(value),
            ],
            final(self).id == old(self).id,
            final(self).base_addr == old(self).base_addr,
            final(self).interrupt_base == old(self).interrupt_base,
            final(self).max_redir_entry == old(self).max_redir_entry,
    {
        self.window.write_sel(index);
        self.window.write_win(value);
        proof {
            assert(self.window.trace() =~= old(self).window.trace() + seq![
                WindowOp::Select(index),
                WindowOp::Write(value),
            ]);
        }
    }

    /// The pair of select indices a 64-bit register occupies: the low
    /// word's index, then the high word's, right above it.
    pub fn indexes_for_64bit_registers(&self, index: IoApic64BitRegisterIndex) -> (r: (u32, u32))
        ensures
            index matches IoApic64BitRegisterIndex::RedirectionEntry(irq) ==> r == (
                spec_redir_lo_index(irq),
                spec_redir_hi_index(irq),
            ),
    {
        match index {
            IoApic64BitRegisterIndex::RedirectionEntry(irq) => {
                (0x10 + 2 * (irq as u32), 0x11 + 2 * (irq as u32))
            },
        }
    }

    /// A 64-bit read: exactly two window reads, low word first, at the
    /// two consecutive indices of the register.
    pub fn read_reg_64(&mut self, index: IoApic64BitRegisterIndex) -> (r: u64)
        requires
            old(self).window.inv(),
            index matches IoApic64BitRegisterIndex::RedirectionEntry(irq) && irq < 120,
        ensures
            final(self).window.inv(),
            final(self).window.regs() == old(self).window.regs(),
            index matches IoApic64BitRegisterIndex::RedirectionEntry(irq) ==> {
                &&& r == spec_entry64(old(self).window.regs(), irq)
                &&& final(self).window.trace() == old(self).window.trace() + seq![
                    WindowOp::Select(spec_redir_lo_index(irq)),
                    WindowOp::Read(old(self).window.regs()[spec_redir_lo_index(irq) as int]),
                    WindowOp::Select(spec_redir_hi_index(irq)),
                    WindowOp::Read(old(self).window.regs()[spec_redir_hi_index(irq) as int]),
                ]
            },
            final(self).id == old(self).id,
            final(self).base_addr == old(self).base_addr,
            final(self).interrupt_base == old(self).interrupt_base,
            final(self).max_redir_entry == old(self).max_redir_entry,
    {
        let (low_addr, high_addr) = self.indexes_for_64bit_registers(index);
        let low = self.read_reg_32(low_addr);
        let high = self.read_reg_32(high_addr);
        proof {
            let irq = index->RedirectionEntry_0;
            assert(self.window.trace() =~= old(self).window.trace() + seq![
                WindowOp::Select(spec_redir_lo_index(irq)),
                WindowOp::Read(low),
                WindowOp::Select(spec_redir_hi_index(irq)),
                WindowOp::Read(high),
            ]);
            assert(((high as u64) << 32) | (low as u64) == (low as u64) | ((high as u64) << 32))
                by (bit_vector);
        }
        ((high as u64) << 32) | low as u64
    }

    /// A 64-bit write: exactly two window writes, low word first, at the
    /// two consecutive indices of the register.  The order matches the
    /// read order, which round-trips depend on.
    pub fn write_reg_64(&mut self, index: IoApic64BitRegisterIndex, value: u64)
        requires
            old(self).window.inv(),
            index matches IoApic64BitRegisterIndex::RedirectionEntry(irq) && irq < 120,
        ensures
            final(self).window.inv(),
            index matches IoApic64BitRegisterIndex::RedirectionEntry(irq) ==> {
                &&& final(self).window.regs() == old(self).window.regs().update(
                    spec_redir_lo_index(irq) as int,
                    value as u32,
                ).update(spec_redir_hi_index(irq) as int, (value >> 32) as u32)
                &&& final(self).window.trace() == old(self).window.trace() + seq![
                    WindowOp::Select(spec_redir_lo_index(irq)),
                    WindowOp::Write(value as u32),
                    WindowOp::Select(spec_redir_hi_index(irq)),
                    WindowOp::Write((value >> 32) as u32),
                ]
            },
            final(self).id == old(self).id,
            final(self).base_addr == old(self).base_addr,
            final(self).interrupt_base == old(self).interrupt_base,
            final(self).max_redir_entry == old(self).max_redir_entry,
    {
        let (low_addr, high_addr) = self.indexes_for_64bit_registers(index);
        let low = value as u32;
        let high = (value >> 32) as u32;
        self.write_reg_32(low_addr, low);
        self.write_reg_32(high_addr, high);
        proof {
            let irq = index->RedirectionEntry_0;
            assert(self.window.trace() =~= old(self).window.trace() + seq![
                WindowOp::Select(spec_redir_lo_index(irq)),
                WindowOp::Write(low),
                WindowOp::Select(spec_redir_hi_index(irq)),
                WindowOp::Write(high),
            ]);
        }
    }

    /// Hardware identity: the high nibble-field of the identity
    /// register's top byte.
    pub fn hw_id(&mut self) -> (r: u8)
        requires
            old(self).window.inv(),
        ensures
            final(self).window.inv(),
            final(self).window.regs() == old(self).window.regs(),
            r == (old(self).window.regs()[0] >> 24) & 0xf0,
            final(self).max_redir_entry == old(self).max_redir_entry,
            final(self).id == old(self).id,
            final(self).interrupt_base == old(self).interrupt_base,
            final(self).base_addr == old(self).base_addr,
    {
        let raw = self.read_reg_32(IoApicReg::Id.as_u32());
        proof {
            assert((raw >> 24) & 0xf0u32 <= 0xff) by (bit_vector);
        }
        ((raw >> 24) & 0xf0) as u8
    }

    /// Hardware version: the low byte of the version register.
    pub fn version(&mut self) -> (r: u8)
        requires
            old(self).window.inv(),
        ensures
            final(self).window.inv(),
            final(self).window.regs() == old(self).window.regs(),
            r == old(self).window.regs()[1] as u8,
            final(self).max_redir_entry == old(self).max_redir_entry,
            final(self).id == old(self).id,
            final(self).interrupt_base == old(self).interrupt_base,
            final(self).base_addr == old(self).base_addr,
    {
        let raw = self.read_reg_32(IoApicReg::Version.as_u32());
        raw as u8
    }

    /// Highest valid redirection-entry index, from bits 16 through 23 of
    /// the version register.
    pub fn read_max_redir_entry(&mut self) -> (r: u8)
        requires
            old(self).window.inv(),
        ensures
            final(self).window.inv(),
            final(self).window.regs() == old(self).window.regs(),
            r == (old(self).window.regs()[1] >> 16) & 0xff,
            final(self).max_redir_entry == old(self).max_redir_entry,
            final(self).id == old(self).id,
            final(self).interrupt_base == old(self).interrupt_base,
            final(self).base_addr == old(self).base_addr,
    {
        let raw = self.read_reg_32(IoApicReg::Version.as_u32());
        proof {
            assert((raw >> 16) & 0xffu32 <= 0xff) by (bit_vector);
        }
        ((raw >> 16) & 0xff) as u8
    }

    /// One-time diagnostic pass: reads hardware identity, version and
    /// redirection capacity, records the capacity for later bounds
    /// checks, and returns the dump for the caller to report.
    pub fn init(&mut self) -> (r: IoApicDiagnostics)
        requires
            old(self).window.inv(),
        ensures
            final(self).window.inv(),
            final(self).window.regs() == old(self).window.regs(),
            r == spec_io_diagnostics(old(self).window.regs()),
            final(self).max_redir_entry == r.max_redir_entry,
            final(self).id == old(self).id,
            final(self).interrupt_base == old(self).interrupt_base,
            final(self).base_addr == old(self).base_addr,
    {
        let id = self.hw_id();
        let version = self.version();
        let max_redir_entry = self.read_max_redir_entry();
        self.max_redir_entry = max_redir_entry;
        IoApicDiagnostics { id, version, max_redir_entry }
    }

    /// Reads redirection entry `index` through two low-first window
    /// reads and rebuilds the typed value, masking reserved bits to
    /// zero.  The index must not pass the controller's capacity: larger
    /// indices are a programming error, never input-driven.
    pub fn read_redir_entry(&mut self, index: u8) -> (r: RedirectionEntry)
        requires
            old(self).window.inv(),
            index <= old(self).max_redir_entry,
            index < 120,
        ensures
            final(self).window.inv(),
            final(self).window.regs() == old(self).window.regs(),
            r.bits == spec_entry64(old(self).window.regs(), index) & !REDIR_RESERVED,
            final(self).window.trace() == old(self).window.trace() + seq![
                WindowOp::Select(spec_redir_lo_index(index)),
                WindowOp::Read(old(self).window.regs()[spec_redir_lo_index(index) as int]),
                WindowOp::Select(spec_redir_hi_index(index)),
                WindowOp::Read(old(self).window.regs()[spec_redir_hi_index(index) as int]),
            ],
            final(self).max_redir_entry == old(self).max_redir_entry,
            final(self).id == old(self).id,
            final(self).interrupt_base == old(self).interrupt_base,
            final(self).base_addr == old(self).base_addr,
    {
        let raw = self.read_reg_64(IoApic64BitRegisterIndex::RedirectionEntry(index));
        let masked = raw & !REDIR_RESERVED;
        match RedirectionEntry::from_bits(masked) {
            Some(entry) => entry,
            None => {
                proof {
                    assert(false);
                }
                RedirectionEntry { bits: 0 }
            },
        }
    }

    /// Writes redirection entry `index` verbatim, reserved bits
    /// included, through two low-first window writes.
    pub fn write_redir_entry(&mut self, index: u8, entry: RedirectionEntry)
        requires
            old(self).window.inv(),
            index <= old(self).max_redir_entry,
            index < 120,
        ensures
            final(self).window.inv(),
            final(self).window.regs() == old(self).window.regs().update(
                spec_redir_lo_index(index) as int,
                entry.bits as u32,
            ).update(spec_redir_hi_index(index) as int, (entry.bits >> 32) as u32),
            final(self).window.trace() == old(self).window.trace() + seq![
                WindowOp::Select(spec_redir_lo_index(index)),
                WindowOp::Write(entry.bits as u32),
                WindowOp::Select(spec_redir_hi_index(index)),
                WindowOp::Write((entry.bits >> 32) as u32),
            ],
            final(self).max_redir_entry == old(self).max_redir_entry,
            final(self).id == old(self).id,
            final(self).interrupt_base == old(self).interrupt_base,
            final(self).base_addr == old(self).base_addr,
    {
        self.write_reg_64(IoApic64BitRegisterIndex::RedirectionEntry(index), entry.bits);
    }
}

/// Round trip of a redirection entry through the register file: writing
/// a value that respects the reserved-bit mask and reading the same
/// entry back returns the value unchanged, for every entry index and
/// every starting register state.
pub proof fn lemma_redirection_entry_round_trip(regs: Seq<u32>, irq: u8, value: u64)
    requires
        regs.len() == 256,
        irq < 120,
        value & REDIR_RESERVED == 0,
    ensures
        spec_entry64(
            regs.update(spec_redir_lo_index(irq) as int, value as u32).update(
                spec_redir_hi_index(irq) as int,
                (value >> 32) as u32,
            ),
            irq,
        ) & !REDIR_RESERVED == value,
{
    let written = regs.update(spec_redir_lo_index(irq) as int, value as u32).update(
        spec_redir_hi_index(irq) as int,
        (value >> 32) as u32,
    );
    assert(written[spec_redir_lo_index(irq) as int] == value as u32);
    assert(written[spec_redir_hi_index(irq) as int] == (value >> 32) as u32);
    assert((value as u32 as u64) | ((value >> 32) as u32 as u64) << 32 == value)
        by (bit_vector);
    assert(value & 0x00ffffff_fffe0000u64 == 0 ==> value & !0x00ffffff_fffe0000u64 == value)
        by (bit_vector);
}

} // verus!
