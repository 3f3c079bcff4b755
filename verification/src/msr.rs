//! Base-enable state of the local interrupt controller: a single 64-bit
//! CPU model-specific register holding the bootstrap-processor flag, the
//! global-enable bit, and the physical base address of the controller's
//! register window.

use vstd::prelude::*;

verus! {

/// Number of the model-specific register holding the base-enable state.
pub const IA32_APIC_BASE_MSR: u32 = 0x1b;

/// Bootstrap-processor flag (bit 8).
pub const APIC_BASE_BSP: u64 = 0x100;

/// Global-enable bit (bit 11): the coarse switch for the whole local
/// controller, distinct from the software-enable bit inside the
/// spurious-interrupt register.
pub const APIC_BASE_GLOBAL_ENABLE: u64 = 0x800;

/// The physical base address field together with the reserved bits:
/// everything above the low twelve bits.
pub const APIC_BASE_AND_RESERVED: u64 = 0xffffffff_fffff000;

/// Access to the base-enable model-specific register.  The model is the
/// register's current 64-bit value; read and write are whole-word
/// operations with no addressing beyond the fixed register number.
pub trait ApicBaseMsr: Sized {
    /// The register's current value.  (The default makes the model
    /// optional for unverified backends outside this crate; one that
    /// keeps it satisfies no caller's expectations.)
    open spec fn value(&self) -> u64 {
        0
    }

    fn read(&mut self) -> (r: u64)
        ensures
            r == old(self).value(),
            final(self).value() == old(self).value(),
    ;

    fn write(&mut self, value: u64)
        ensures
            final(self).value() == value,
    ;
}

/// The base-enable word with its global-enable bit set or cleared and
/// every other bit kept.
pub open spec fn spec_with_global_enable(value: u64, on: bool) -> u64 {
    if on {
        value | APIC_BASE_GLOBAL_ENABLE
    } else {
        value & !APIC_BASE_GLOBAL_ENABLE
    }
}

/// Setting or clearing the global-enable bit keeps the base-address bits
/// (the word above the low twelve bits) untouched; in particular toggling
/// the bit off and back on leaves them unchanged.
pub proof fn lemma_global_enable_toggle_keeps_base(value: u64, on: bool)
    ensures
        spec_with_global_enable(value, on) & !0xfff == value & !0xfff,
        spec_with_global_enable(spec_with_global_enable(value, false), true) & !0xfff
            == value & !0xfff,
{
    assert((value | 0x800u64) & !0xfffu64 == value & !0xfffu64) by (bit_vector);
    assert((value & !0x800u64) & !0xfffu64 == value & !0xfffu64) by (bit_vector);
    assert(((value & !0x800u64) | 0x800u64) & !0xfffu64 == value & !0xfffu64)
        by (bit_vector);
}

} // verus!
