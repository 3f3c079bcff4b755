//! Register layout of the per-core interrupt controller: enumerated,
//! width-tagged byte offsets from the mapped base, the direct-pointer
//! access capability over them, and typed registers that bundle an
//! offset with its decode.
//!
//! The registers sit on sixteen-byte boundaries, so the model indexes
//! the register file by `offset >> 4`: a sequence of sixty-four 32-bit
//! registers.

use vstd::prelude::*;

verus! {

/// Byte offsets of the controller's 32-bit registers from the mapped
/// base.
#[derive(Copy, Clone, Debug, PartialEq, Eq, Structural)]
pub enum LocalApicRegisterIndex {
    Id,
    Version,
    TaskPriority,
    ArbitrationPriority,
    ProcessPriority,
    EndOfInterrupt,
    RemoteRead,
    LocalDestination,
    DestinationFormat,
    SpuriousInterrupt,
    LvtCmci,
    InterruptCommandLow,
    InterruptCommandHigh,
    LvtTimer,
    LvtThermalSensor,
    LvtPerfCounters,
    LvtLint0,
    LvtLint1,
    LvtError,
    TimerInitialCount,
    TimerCurrentCount,
    TimerDivideConfiguration,
}

/// The byte offset of each register.
pub open spec fn spec_local_reg_u32(index: LocalApicRegisterIndex) -> u32 {
    match index {
        LocalApicRegisterIndex::Id => 0x20,
        LocalApicRegisterIndex::Version => 0x30,
        LocalApicRegisterIndex::TaskPriority => 0x80,
        LocalApicRegisterIndex::ArbitrationPriority => 0x90,
        LocalApicRegisterIndex::ProcessPriority => 0xa0,
        LocalApicRegisterIndex::EndOfInterrupt => 0xb0,
        LocalApicRegisterIndex::RemoteRead => 0xc0,
        LocalApicRegisterIndex::LocalDestination => 0xd0,
        LocalApicRegisterIndex::DestinationFormat => 0xe0,
        LocalApicRegisterIndex::SpuriousInterrupt => 0xf0,
        LocalApicRegisterIndex::LvtCmci => 0x2f0,
        LocalApicRegisterIndex::InterruptCommandLow => 0x300,
        LocalApicRegisterIndex::InterruptCommandHigh => 0x310,
        LocalApicRegisterIndex::LvtTimer => 0x320,
        LocalApicRegisterIndex::LvtThermalSensor => 0x330,
        LocalApicRegisterIndex::LvtPerfCounters => 0x340,
        LocalApicRegisterIndex::LvtLint0 => 0x350,
        LocalApicRegisterIndex::LvtLint1 => 0x360,
        LocalApicRegisterIndex::LvtError => 0x370,
        LocalApicRegisterIndex::TimerInitialCount => 0x380,
        LocalApicRegisterIndex::TimerCurrentCount => 0x390,
        LocalApicRegisterIndex::TimerDivideConfiguration => 0x3e0,
    }
}

/// The register-file slot of each register: its offset in units of the
/// sixteen-byte register stride.
pub open spec fn spec_local_reg_slot(index: LocalApicRegisterIndex) -> int {
    spec_local_reg_u32(index) as int / 16
}

/// Every register's slot lies inside the sixty-four-slot register file.
pub proof fn lemma_local_reg_slot_bounds(index: LocalApicRegisterIndex)
    ensures
        0 <= spec_local_reg_slot(index) < 64,
{
}

impl LocalApicRegisterIndex {
    pub fn as_u32(self) -> (r: u32)
        ensures
            r == spec_local_reg_u32(self),
    {
        match self {
            LocalApicRegisterIndex::Id => 0x20,
            LocalApicRegisterIndex::Version => 0x30,
            LocalApicRegisterIndex::TaskPriority => 0x80,
            LocalApicRegisterIndex::ArbitrationPriority => 0x90,
            LocalApicRegisterIndex::ProcessPriority => 0xa0,
            LocalApicRegisterIndex::EndOfInterrupt => 0xb0,
            LocalApicRegisterIndex::RemoteRead => 0xc0,
            LocalApicRegisterIndex::LocalDestination => 0xd0,
            LocalApicRegisterIndex::DestinationFormat => 0xe0,
            LocalApicRegisterIndex::SpuriousInterrupt => 0xf0,
            LocalApicRegisterIndex::LvtCmci => 0x2f0,
            LocalApicRegisterIndex::InterruptCommandLow => 0x300,
            LocalApicRegisterIndex::InterruptCommandHigh => 0x310,
            LocalApicRegisterIndex::LvtTimer => 0x320,
            LocalApicRegisterIndex::LvtThermalSensor => 0x330,
            LocalApicRegisterIndex::LvtPerfCounters => 0x340,
            LocalApicRegisterIndex::LvtLint0 => 0x350,
            LocalApicRegisterIndex::LvtLint1 => 0x360,
            LocalApicRegisterIndex::LvtError => 0x370,
            LocalApicRegisterIndex::TimerInitialCount => 0x380,
            LocalApicRegisterIndex::TimerCurrentCount => 0x390,
            LocalApicRegisterIndex::TimerDivideConfiguration => 0x3e0,
        }
    }

    pub fn as_u64(self) -> (r: u64)
        ensures
            r == spec_local_reg_u32(self) as u64,
    {
        self.as_u32() as u64
    }
}

/// The direct-pointer register-access capability of the per-core
/// controller: each named register is one aligned 32-bit location at
/// its byte offset from the mapped base.  The model is the register
/// file, one slot per sixteen-byte stride.
pub trait LocalApic: Sized {
    /// The register file, by slot.  (The ghost members carry defaults so
    /// that unverified backends outside this crate need only provide the
    /// access methods; a backend that keeps the defaults has a false
    /// invariant and so satisfies no driver contract.)
    open spec fn regs(&self) -> Seq<u32> {
        Seq::empty()
    }

    /// Whether the backend is well formed: a true invariant stands for
    /// a register file of sixty-four slots.
    open spec fn inv(&self) -> bool {
        false
    }

    fn read_reg_32(&self, index: LocalApicRegisterIndex) -> (r: u32)
        requires
            self.inv(),
        ensures
            r == self.regs()[spec_local_reg_slot(index)],
    ;

    fn write_reg_32(&mut self, index: LocalApicRegisterIndex, value: u32)
        requires
            old(self).inv(),
        ensures
            final(self).inv(),
            final(self).regs() == old(self).regs().update(spec_local_reg_slot(index), value),
    ;
}

/// A typed register: an offset bundled with the decode of its raw word
/// into a value and the encode back.
pub trait LocalApicRegister<A: LocalApic>: Sized {
    type Value;

    /// The register this reads and writes.
    spec fn index(&self) -> LocalApicRegisterIndex;

    /// The value a raw register word decodes to.
    spec fn decode(&self, raw: u32) -> Self::Value;

    /// The raw register word a value encodes to.
    spec fn encode(&self, value: Self::Value) -> u32;

    fn read(&self, apic: &A) -> (r: Self::Value)
        requires
            apic.inv(),
        ensures
            r == self.decode(apic.regs()[spec_local_reg_slot(self.index())]),
    ;

    fn write(&self, apic: &mut A, value: Self::Value)
        requires
            old(apic).inv(),
        ensures
            final(apic).inv(),
            final(apic).regs() == old(apic).regs().update(
                spec_local_reg_slot(self.index()),
                self.encode(value),
            ),
    ;
}

/// The eight-bit identity decode: the top byte of the identity
/// register, for processor generations from the first Pentium 4 and
/// Xeon onward.
#[derive(Copy, Clone, Debug, PartialEq, Eq, Structural)]
pub struct Id8BitRegister;

impl<A: LocalApic> LocalApicRegister<A> for Id8BitRegister {
    type Value = u8;

    open spec fn index(&self) -> LocalApicRegisterIndex {
        LocalApicRegisterIndex::Id
    }

    open spec fn decode(&self, raw: u32) -> u8 {
        (raw >> 24) as u8
    }

    open spec fn encode(&self, value: u8) -> u32 {
        (value as u32) << 24
    }

    fn read(&self, apic: &A) -> (r: u8) {
        let raw = apic.read_reg_32(LocalApicRegisterIndex::Id);
        proof {
            assert(raw >> 24 <= 0xff) by (bit_vector);
        }
        (raw >> 24) as u8
    }

    fn write(&self, apic: &mut A, value: u8) {
        apic.write_reg_32(LocalApicRegisterIndex::Id, (value as u32) << 24);
    }
}

/// The four-bit identity decode: the low nibble of the identity
/// register's top byte, for earlier processor generations.
#[derive(Copy, Clone, Debug, PartialEq, Eq, Structural)]
pub struct Id4BitRegister;

impl<A: LocalApic> LocalApicRegister<A> for Id4BitRegister {
    type Value = u8;

    open spec fn index(&self) -> LocalApicRegisterIndex {
        LocalApicRegisterIndex::Id
    }

    open spec fn decode(&self, raw: u32) -> u8 {
        ((raw >> 24) & 0xf) as u8
    }

    open spec fn encode(&self, value: u8) -> u32 {
        ((value & 0xf) as u32) << 24
    }

    fn read(&self, apic: &A) -> (r: u8) {
        let raw = apic.read_reg_32(LocalApicRegisterIndex::Id);
        proof {
            assert((raw >> 24) & 0xfu32 <= 0xff) by (bit_vector);
        }
        ((raw >> 24) & 0xf) as u8
    }

    fn write(&self, apic: &mut A, value: u8) {
        apic.write_reg_32(LocalApicRegisterIndex::Id, ((value & 0xf) as u32) << 24);
    }
}

/// The version register's low byte.
#[derive(Copy, Clone, Debug, PartialEq, Eq, Structural)]
pub struct VersionRegister;

impl<A: LocalApic> LocalApicRegister<A> for VersionRegister {
    type Value = u8;

    open spec fn index(&self) -> LocalApicRegisterIndex {
        LocalApicRegisterIndex::Version
    }

    open spec fn decode(&self, raw: u32) -> u8 {
        raw as u8
    }

    open spec fn encode(&self, value: u8) -> u32 {
        value as u32
    }

    fn read(&self, apic: &A) -> (r: u8) {
        let raw = apic.read_reg_32(LocalApicRegisterIndex::Version);
        raw as u8
    }

    fn write(&self, apic: &mut A, value: u8) {
        apic.write_reg_32(LocalApicRegisterIndex::Version, value as u32);
    }
}

} // verus!
