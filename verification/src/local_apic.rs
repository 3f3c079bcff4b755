//! Per-core interrupt controller driver.  A driver is bound to a mapped
//! register window and to the base-enable model-specific register, and
//! walks the states mapped, initialized, enabled: `new` binds, `init`
//! runs the one-time diagnostic pass and selects the identity decode by
//! processor generation, and `enable`/`disable` toggle the software
//! enable bit inside the spurious-interrupt register — distinct from
//! the coarser global-enable bit in the base-enable register.

use vstd::prelude::*;
use crate::cpuid;
use crate::icr::InterruptCommandFlags;
use crate::local_registers::{
    Id4BitRegister,
    Id8BitRegister,
    LocalApic,
    LocalApicRegister,
    LocalApicRegisterIndex,
    VersionRegister,
    spec_local_reg_slot,
};
use crate::msr::{APIC_BASE_GLOBAL_ENABLE, ApicBaseMsr, spec_with_global_enable};

verus! {

/// Failure of the one-time hardware initialization.
#[derive(Copy, Clone, Debug, PartialEq, Eq, Structural)]
pub enum LocalApiError {
    /// The processor-generation probe needed to select the identity
    /// decode is unavailable; guessing a decode would silently corrupt
    /// the identity read, so the gap is reported instead.
    MissingCpuidFeatures,
}

/// Lifecycle of a driver bound to a mapped window.
#[derive(Copy, Clone, Debug, PartialEq, Eq, Structural)]
pub enum LocalApicState {
    Mapped,
    Initialized,
    Enabled,
}

/// Software-enable bit inside the spurious-interrupt register.
pub const SIVR_ENABLE: u32 = 0x100;

/// The one-time diagnostic dump `init` reads: base-enable state, the
/// identity under the generation-selected decode, and every priority,
/// command, timer and local-vector-table register.
#[derive(Copy, Clone, Debug, PartialEq, Eq, Structural)]
pub struct LocalApicDiagnostics {
    pub base_phys_addr: u64,
    pub global_enabled: bool,
    pub id: u8,
    pub version: u8,
    pub icr: InterruptCommandFlags,
    pub ldr: u32,
    pub tpr: u32,
    pub timer_initial_count: u32,
    pub timer_current_count: u32,
    pub timer_divide_config: u32,
    pub dfr: u32,
    pub lvt_timer: u32,
    pub lvt_cmci: u32,
    pub lvt_lint0: u32,
    pub lvt_lint1: u32,
    pub lvt_error: u32,
    pub lvt_perf: u32,
    pub lvt_thermal: u32,
}

/// Driver of the per-core controller, over a direct-pointer register
/// capability and the base-enable register capability.
pub struct MappedLocalApic<A: LocalApic, M: ApicBaseMsr> {
    /// Virtual base address the register window was mapped at.
    pub base_addr: u64,
    /// The direct-pointer register-access capability.
    pub regs: A,
    /// The base-enable model-specific register capability.
    pub base_msr: M,
    pub state: LocalApicState,
}

impl<A: LocalApic, M: ApicBaseMsr> MappedLocalApic<A, M> {
    /// Binds a driver to an already-mapped register window.
    pub fn new(base_addr: u64, regs: A, base_msr: M) -> (r: MappedLocalApic<A, M>)
        ensures
            r.base_addr == base_addr,
            r.regs == regs,
            r.base_msr == base_msr,
            r.state == LocalApicState::Mapped,
    {
        MappedLocalApic { base_addr, regs, base_msr, state: LocalApicState::Mapped }
    }

    /// Current base-enable word.
    pub fn read_base_msr(&mut self) -> (r: u64)
        ensures
            r == old(self).base_msr.value(),
            final(self).base_msr.value() == old(self).base_msr.value(),
            final(self).regs == old(self).regs,
            final(self).state == old(self).state,
            final(self).base_addr == old(self).base_addr,
    {
        self.base_msr.read()
    }

    /// Overwrites the whole base-enable word.
    pub fn write_base_msr(&mut self, value: u64)
        ensures
            final(self).base_msr.value() == value,
            final(self).regs == old(self).regs,
            final(self).state == old(self).state,
            final(self).base_addr == old(self).base_addr,
    {
        self.base_msr.write(value)
    }

    /// The physical base address of the register window: the base-enable
    /// word above its low twelve bits.  This is the one place a physical
    /// address is derived from hardware state rather than firmware data;
    /// the result is always page-aligned.
    pub fn get_base_phys_addr(&mut self) -> (r: u64)
        ensures
            r == old(self).base_msr.value() & !0xfff,
            r % 4096 == 0,
            final(self).base_msr.value() == old(self).base_msr.value(),
            final(self).regs == old(self).regs,
            final(self).state == old(self).state,
            final(self).base_addr == old(self).base_addr,
    {
        let value = self.read_base_msr();
        proof {
            assert((value & !0xfffu64) % 4096 == 0) by (bit_vector);
        }
        value & !0xfff
    }

    /// Whether the coarse global-enable bit of the base-enable register
    /// is set.
    pub fn is_global_enabled(&mut self) -> (r: bool)
        ensures
            r == (old(self).base_msr.value() & APIC_BASE_GLOBAL_ENABLE != 0),
            final(self).base_msr.value() == old(self).base_msr.value(),
            final(self).regs == old(self).regs,
            final(self).state == old(self).state,
            final(self).base_addr == old(self).base_addr,
    {
        let value = self.read_base_msr();
        value & APIC_BASE_GLOBAL_ENABLE != 0
    }

    /// Clears the global-enable bit, read-modify-write, keeping every
    /// other bit — the base-address bits in particular — untouched.
    pub fn global_disable(&mut self)
        ensures
            final(self).base_msr.value() == spec_with_global_enable(
                old(self).base_msr.value(),
                false,
            ),
            final(self).base_msr.value() & !0xfff == old(self).base_msr.value() & !0xfff,
            final(self).regs == old(self).regs,
            final(self).state == old(self).state,
            final(self).base_addr == old(self).base_addr,
    {
        let value = self.read_base_msr();
        self.write_base_msr(value & !APIC_BASE_GLOBAL_ENABLE);
        proof {
            crate::msr::lemma_global_enable_toggle_keeps_base(value, false);
        }
    }

    /// Whether the software-enable bit of the spurious-interrupt
    /// register is set.
    pub fn is_enabled(&self) -> (r: bool)
        requires
            self.regs.inv(),
        ensures
            r == (self.regs.regs()[spec_local_reg_slot(
                LocalApicRegisterIndex::SpuriousInterrupt,
            )] & SIVR_ENABLE != 0),
    {
        let sivr = self.regs.read_reg_32(LocalApicRegisterIndex::SpuriousInterrupt);
        sivr & SIVR_ENABLE != 0
    }

    /// Sets the software-enable bit inside the spurious-interrupt
    /// register, read-modify-write, and records the enabled state.  The
    /// driver must have been initialized first.
    pub fn enable(&mut self)
        requires
            old(self).regs.inv(),
            old(self).state != LocalApicState::Mapped,
        ensures
            final(self).regs.inv(),
            final(self).regs.regs() == old(self).regs.regs().update(
                spec_local_reg_slot(LocalApicRegisterIndex::SpuriousInterrupt),
                old(self).regs.regs()[spec_local_reg_slot(
                    LocalApicRegisterIndex::SpuriousInterrupt,
                )] | SIVR_ENABLE,
            ),
            final(self).state == LocalApicState::Enabled,
            final(self).base_msr == old(self).base_msr,
            final(self).base_addr == old(self).base_addr,
    {
        let sivr = self.regs.read_reg_32(LocalApicRegisterIndex::SpuriousInterrupt);
        self.regs.write_reg_32(LocalApicRegisterIndex::SpuriousInterrupt, sivr | SIVR_ENABLE);
        self.state = LocalApicState::Enabled;
    }

    /// Clears the software-enable bit inside the spurious-interrupt
    /// register, read-modify-write; the driver drops back to the
    /// initialized state.
    pub fn disable(&mut self)
        requires
            old(self).regs.inv(),
            old(self).state != LocalApicState::Mapped,
        ensures
            final(self).regs.inv(),
            final(self).regs.regs() == old(self).regs.regs().update(
                spec_local_reg_slot(LocalApicRegisterIndex::SpuriousInterrupt),
                old(self).regs.regs()[spec_local_reg_slot(
                    LocalApicRegisterIndex::SpuriousInterrupt,
                )] & !SIVR_ENABLE,
            ),
            final(self).state == LocalApicState::Initialized,
            final(self).base_msr == old(self).base_msr,
            final(self).base_addr == old(self).base_addr,
    {
        let sivr = self.regs.read_reg_32(LocalApicRegisterIndex::SpuriousInterrupt);
        self.regs.write_reg_32(LocalApicRegisterIndex::SpuriousInterrupt, sivr & !SIVR_ENABLE);
        self.state = LocalApicState::Initialized;
    }

    /// The diagnostic pass over a known processor generation: reads the
    /// identity under the eight-bit decode when `use_8bit_id` and the
    /// four-bit decode otherwise, then every priority, command, timer
    /// and local-vector-table register, without changing any of them,
    /// and moves the driver to the initialized state.  Interrupts are
    /// not unmasked by this.
    pub fn init_with(&mut self, use_8bit_id: bool) -> (r: LocalApicDiagnostics)
        requires
            old(self).regs.inv(),
            old(self).state == LocalApicState::Mapped,
        ensures
            final(self).regs.inv(),
            final(self).regs.regs() == old(self).regs.regs(),
            final(self).base_msr.value() == old(self).base_msr.value(),
            final(self).base_addr == old(self).base_addr,
            final(self).state == LocalApicState::Initialized,
            r == spec_diagnostics(
                old(self).regs.regs(),
                old(self).base_msr.value(),
                use_8bit_id,
            ),
    {
        let base_phys_addr = self.get_base_phys_addr();
        let global_enabled = self.is_global_enabled();

        let id = if use_8bit_id {
            Id8BitRegister.read(&self.regs)
        } else {
            Id4BitRegister.read(&self.regs)
        };
        let version = VersionRegister.read(&self.regs);

        let icr_low = self.regs.read_reg_32(LocalApicRegisterIndex::InterruptCommandLow);
        let icr_high = self.regs.read_reg_32(LocalApicRegisterIndex::InterruptCommandHigh);
        let icr = InterruptCommandFlags {
            bits: (icr_low as u64) | ((icr_high as u64) << 32),
        };
        let ldr = self.regs.read_reg_32(LocalApicRegisterIndex::LocalDestination);
        let tpr = self.regs.read_reg_32(LocalApicRegisterIndex::TaskPriority);

        let timer_initial_count = self.regs.read_reg_32(LocalApicRegisterIndex::TimerInitialCount);
        let timer_current_count = self.regs.read_reg_32(LocalApicRegisterIndex::TimerCurrentCount);
        let timer_divide_config = self.regs.read_reg_32(
            LocalApicRegisterIndex::TimerDivideConfiguration,
        );

        let dfr = self.regs.read_reg_32(LocalApicRegisterIndex::DestinationFormat);

        let lvt_timer = self.regs.read_reg_32(LocalApicRegisterIndex::LvtTimer);
        let lvt_cmci = self.regs.read_reg_32(LocalApicRegisterIndex::LvtCmci);
        let lvt_lint0 = self.regs.read_reg_32(LocalApicRegisterIndex::LvtLint0);
        let lvt_lint1 = self.regs.read_reg_32(LocalApicRegisterIndex::LvtLint1);
        let lvt_error = self.regs.read_reg_32(LocalApicRegisterIndex::LvtError);
        let lvt_perf = self.regs.read_reg_32(LocalApicRegisterIndex::LvtPerfCounters);
        let lvt_thermal = self.regs.read_reg_32(LocalApicRegisterIndex::LvtThermalSensor);

        self.state = LocalApicState::Initialized;

        LocalApicDiagnostics {
            base_phys_addr,
            global_enabled,
            id,
            version,
            icr,
            ldr,
            tpr,
            timer_initial_count,
            timer_current_count,
            timer_divide_config,
            dfr,
            lvt_timer,
            lvt_cmci,
            lvt_lint0,
            lvt_lint1,
            lvt_error,
            lvt_perf,
            lvt_thermal,
        }
    }

    /// The one-time hardware initialization: probes the processor
    /// generation to select the identity decode, then runs the
    /// diagnostic pass.  When the probe is unavailable the gap is
    /// reported and the driver stays mapped; no register is touched
    /// either way.
    pub fn init(&mut self) -> (r: Result<LocalApicDiagnostics, LocalApiError>)
        requires
            old(self).regs.inv(),
            old(self).state == LocalApicState::Mapped,
        ensures
            final(self).regs.inv(),
            final(self).regs.regs() == old(self).regs.regs(),
            final(self).base_msr.value() == old(self).base_msr.value(),
            final(self).base_addr == old(self).base_addr,
            r matches Err(e) ==> e == LocalApiError::MissingCpuidFeatures && final(self).state
                == LocalApicState::Mapped,
            r matches Ok(diag) ==> final(self).state == LocalApicState::Initialized && (diag
                == spec_diagnostics(old(self).regs.regs(), old(self).base_msr.value(), true)
                || diag == spec_diagnostics(
                old(self).regs.regs(),
                old(self).base_msr.value(),
                false,
            )),
    {
        match cpuid::is_p4_or_xeon_or_later() {
            Err(_) => Err(LocalApiError::MissingCpuidFeatures),
            Ok(use_8bit_id) => Ok(self.init_with(use_8bit_id)),
        }
    }
}

/// The diagnostic dump determined by a register file, a base-enable
/// word, and the identity-decode choice.
pub open spec fn spec_diagnostics(
    regs: Seq<u32>,
    base_msr: u64,
    use_8bit_id: bool,
) -> LocalApicDiagnostics {
    LocalApicDiagnostics {
        base_phys_addr: base_msr & !0xfff,
        global_enabled: base_msr & APIC_BASE_GLOBAL_ENABLE != 0,
        id: if use_8bit_id {
            (regs[spec_local_reg_slot(LocalApicRegisterIndex::Id)] >> 24) as u8
        } else {
            ((regs[spec_local_reg_slot(LocalApicRegisterIndex::Id)] >> 24) & 0xf) as u8
        },
        version: regs[spec_local_reg_slot(LocalApicRegisterIndex::Version)] as u8,
        icr: InterruptCommandFlags {
            bits: (regs[spec_local_reg_slot(LocalApicRegisterIndex::InterruptCommandLow)] as u64)
                | ((regs[spec_local_reg_slot(LocalApicRegisterIndex::InterruptCommandHigh)]
                as u64) << 32),
        },
        ldr: regs[spec_local_reg_slot(LocalApicRegisterIndex::LocalDestination)],
        tpr: regs[spec_local_reg_slot(LocalApicRegisterIndex::TaskPriority)],
        timer_initial_count: regs[spec_local_reg_slot(LocalApicRegisterIndex::TimerInitialCount)],
        timer_current_count: regs[spec_local_reg_slot(LocalApicRegisterIndex::TimerCurrentCount)],
        timer_divide_config: regs[spec_local_reg_slot(
            LocalApicRegisterIndex::TimerDivideConfiguration,
        )],
        dfr: regs[spec_local_reg_slot(LocalApicRegisterIndex::DestinationFormat)],
        lvt_timer: regs[spec_local_reg_slot(LocalApicRegisterIndex::LvtTimer)],
        lvt_cmci: regs[spec_local_reg_slot(LocalApicRegisterIndex::LvtCmci)],
        lvt_lint0: regs[spec_local_reg_slot(LocalApicRegisterIndex::LvtLint0)],
        lvt_lint1: regs[spec_local_reg_slot(LocalApicRegisterIndex::LvtLint1)],
        lvt_error: regs[spec_local_reg_slot(LocalApicRegisterIndex::LvtError)],
        lvt_perf: regs[spec_local_reg_slot(LocalApicRegisterIndex::LvtPerfCounters)],
        lvt_thermal: regs[spec_local_reg_slot(LocalApicRegisterIndex::LvtThermalSensor)],
    }
}

} // verus!
