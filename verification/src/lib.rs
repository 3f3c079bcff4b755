//! Boot-time core of a PC-compatible interrupt-controller subsystem.
//!
//! The crate maps physical device windows into the kernel address space
//! (a bump virtual-region allocator plus a page-table capability), and
//! programs the per-core and I/O interrupt controllers through a
//! register-access abstraction with three shapes: direct-pointer MMIO,
//! index/window MMIO, and CPU model-specific registers.  Every register
//! mechanism is a trait whose contracts speak over a mathematical model
//! of the device's register file; in-memory mock backends implement the
//! traits here, and hardware backends can implement them outside.
//!
//! The crate root holds the boot-time entry point: `init` maps the
//! per-core controller at the caller's chosen virtual base and each
//! firmware-discovered I/O controller at the following page-aligned
//! slots, initializes every driver, and returns the controller registry
//! — or fails without publishing anything.

pub mod cpuid;
pub mod icr;
pub mod memory;
pub mod ioapic;
pub mod local_apic;
pub mod local_registers;
pub mod mapping;
pub mod mock;
pub mod msr;
pub mod vmem_allocator;

use vstd::prelude::*;
use vstd::arithmetic::div_mod::{lemma_div_multiples_vanish, lemma_fundamental_div_mod};
use crate::ioapic::{IoApicDiagnostics, IoApicWindow, MappedIoApic, WindowOp};
use crate::local_apic::{LocalApiError, LocalApicDiagnostics, LocalApicState, MappedLocalApic};
use crate::local_registers::LocalApic;
use crate::mapping::{entries_preserved_outside, region_unmapped};
use crate::memory::{
    DEVICE_PAGE_FLAGS,
    FrameSource,
    PAGE_SIZE,
    PageMapper,
    PageTableEntry,
    map_page,
};
use crate::msr::ApicBaseMsr;

verus! {

/// One I/O controller as the firmware interrupt-model descriptor
/// reports it: its identity, the physical address of its register
/// window, and the first global system interrupt it serves.
#[derive(Copy, Clone, Debug, PartialEq, Eq, Structural)]
pub struct IoApicInfo {
    pub id: u8,
    pub address: u32,
    pub global_system_interrupt_base: u32,
}

/// The firmware-derived interrupt-model descriptor: the I/O controllers
/// in discovery order.  One per-core controller per active core is
/// implicit.
#[derive(Debug)]
pub struct ApicInfo {
    pub io_apics: Vec<IoApicInfo>,
}

/// Binds register-access backends to freshly mapped virtual bases: the
/// seam between the verified drivers and whatever actually answers at
/// those addresses — device memory, or an in-memory mock.
pub trait ApicBackendProvider: Sized {
    type Local: LocalApic;

    type Window: IoApicWindow;

    fn local_at(&mut self, virtual_base: u64) -> (r: Self::Local)
        ensures
            r.inv(),
    ;

    fn window_at(&mut self, virtual_base: u64) -> (r: Self::Window)
        ensures
            r.inv(),
            r.trace() == Seq::<WindowOp>::empty(),
    ;
}

/// The controller registry: the one per-core controller driver and the
/// I/O controller drivers in firmware discovery order.  It is built
/// whole by `init` and never published half-initialized; a single boot
/// sequence owns it, so no lock guards it here — a caller that shares
/// it across execution contexts wraps it in one.
pub struct ApicRegistry<L: LocalApic, M: ApicBaseMsr, W: IoApicWindow> {
    pub local_apic: Option<MappedLocalApic<L, M>>,
    pub io_apics: Vec<MappedIoApic<W>>,
}

/// Everything the one-time initialization read for diagnostics: the
/// per-core controller's dump and one dump per I/O controller.
#[derive(Debug)]
pub struct InitDiagnostics {
    pub local: LocalApicDiagnostics,
    pub io: Vec<IoApicDiagnostics>,
}

/// Maps the per-core controller's register window — at the physical
/// base the base-enable register reports — to `remap_addr`, binds a
/// driver to it, and runs the driver's one-time initialization.  The
/// page-table entry is installed before the generation probe, so it
/// stands whether or not the probe succeeds; the driver is only
/// returned on success.
#[verifier::loop_isolation(false)]
pub fn init_local<P: ApicBackendProvider, M: ApicBaseMsr, F: FrameSource, PT: PageMapper<F>>(
    base_msr: M,
    remap_addr: u64,
    mapper: &mut PT,
    frame_allocator: &mut F,
    provider: &mut P,
) -> (r: Result<(MappedLocalApic<P::Local, M>, LocalApicDiagnostics), LocalApiError>)
    requires
        remap_addr as int % (PAGE_SIZE as int) == 0,
        remap_addr + PAGE_SIZE <= u64::MAX,
        !old(mapper).entries().contains_key((remap_addr as int / (PAGE_SIZE as int)) as u64),
    ensures
        final(mapper).entries() == old(mapper).entries().insert(
            (remap_addr as int / (PAGE_SIZE as int)) as u64,
            PageTableEntry {
                frame: ((base_msr.value() & !0xfff) as int / (PAGE_SIZE as int)) as u64,
                flags: DEVICE_PAGE_FLAGS,
            },
        ),
        r matches Err(e) ==> e == LocalApiError::MissingCpuidFeatures,
        r matches Ok(pair) ==> {
            &&& pair.0.base_addr == remap_addr
            &&& pair.0.state == LocalApicState::Initialized
            &&& pair.0.regs.inv()
            &&& pair.0.base_msr.value() == base_msr.value()
            &&& (pair.1 == local_apic::spec_diagnostics(
                pair.0.regs.regs(),
                base_msr.value(),
                true,
            ) || pair.1 == local_apic::spec_diagnostics(
                pair.0.regs.regs(),
                base_msr.value(),
                false,
            ))
        },
{
    let local_access = provider.local_at(remap_addr);
    let mut apic = MappedLocalApic::new(remap_addr, local_access, base_msr);
    let phys_addr = apic.get_base_phys_addr();
    let page = remap_addr / PAGE_SIZE;
    proof {
        lemma_fundamental_div_mod(remap_addr as int, PAGE_SIZE as int);
    }
    let _virt = map_page(page, phys_addr, mapper, frame_allocator, DEVICE_PAGE_FLAGS);
    match apic.init() {
        Err(e) => Err(e),
        Ok(diagnostics) => Ok((apic, diagnostics)),
    }
}

/// Maps each I/O controller of the descriptor at successive page slots
/// from `remap_addr`, binds a driver to each window, and runs each
/// driver's diagnostic initialization.  Drivers come back in discovery
/// order, the i-th bound to the i-th page slot.
#[verifier::loop_isolation(false)]
pub fn init_io<P: ApicBackendProvider, F: FrameSource, PT: PageMapper<F>>(
    interrupt_model: &ApicInfo,
    remap_addr: u64,
    mapper: &mut PT,
    frame_allocator: &mut F,
    provider: &mut P,
) -> (r: (Vec<MappedIoApic<P::Window>>, Vec<IoApicDiagnostics>))
    requires
        remap_addr as int % (PAGE_SIZE as int) == 0,
        remap_addr + interrupt_model.io_apics@.len() * (PAGE_SIZE as int) <= u64::MAX,
        forall|i: int|
            0 <= i < interrupt_model.io_apics@.len()
                ==> (#[trigger] interrupt_model.io_apics@[i]).address as int % (
            PAGE_SIZE as int) == 0,
        region_unmapped(
            old(mapper).entries(),
            (remap_addr as int / (PAGE_SIZE as int)) as u64,
            interrupt_model.io_apics@.len() as int,
        ),
    ensures
        r.0@.len() == interrupt_model.io_apics@.len(),
        r.1@.len() == interrupt_model.io_apics@.len(),
        forall|i: int|
            0 <= i < r.0@.len() ==> {
                &&& (#[trigger] r.0@[i]).id == interrupt_model.io_apics@[i].id
                &&& r.0@[i].interrupt_base
                    == interrupt_model.io_apics@[i].global_system_interrupt_base
                &&& r.0@[i].base_addr == remap_addr + i * (PAGE_SIZE as int)
                &&& r.0@[i].window.inv()
                &&& r.1@[i] == ioapic::spec_io_diagnostics(r.0@[i].window.regs())
                &&& r.0@[i].max_redir_entry == r.1@[i].max_redir_entry
            },
        forall|i: int|
            0 <= i < interrupt_model.io_apics@.len() ==> final(mapper).entries().contains_key(
                #[trigger] ((remap_addr as int / (PAGE_SIZE as int) + i) as u64),
            ) && final(mapper).entries()[(remap_addr as int / (PAGE_SIZE as int) + i) as u64]
                == (PageTableEntry {
                frame: (interrupt_model.io_apics@[i].address as int / (PAGE_SIZE as int)) as u64,
                flags: DEVICE_PAGE_FLAGS,
            }),
        entries_preserved_outside(
            old(mapper).entries(),
            final(mapper).entries(),
            (remap_addr as int / (PAGE_SIZE as int)) as u64,
            interrupt_model.io_apics@.len() as int,
        ),
{
    let page0 = remap_addr / PAGE_SIZE;
    proof {
        lemma_fundamental_div_mod(remap_addr as int, PAGE_SIZE as int);
    }
    let count = interrupt_model.io_apics.len();
    let mut mapped_io_apics: Vec<MappedIoApic<P::Window>> = Vec::new();
    let mut io_diagnostics: Vec<IoApicDiagnostics> = Vec::new();
    let ghost entries0 = mapper.entries();
    let mut i: usize = 0;
    while i < count
        invariant
            i <= count,
            mapped_io_apics@.len() == i,
            io_diagnostics@.len() == i,
            forall|k: int|
                0 <= k < i as int ==> {
                    &&& (#[trigger] mapped_io_apics@[k]).id == interrupt_model.io_apics@[k].id
                    &&& mapped_io_apics@[k].interrupt_base
                        == interrupt_model.io_apics@[k].global_system_interrupt_base
                    &&& mapped_io_apics@[k].base_addr == remap_addr + k * (PAGE_SIZE as int)
                    &&& mapped_io_apics@[k].window.inv()
                    &&& io_diagnostics@[k] == ioapic::spec_io_diagnostics(
                        mapped_io_apics@[k].window.regs(),
                    )
                    &&& mapped_io_apics@[k].max_redir_entry == io_diagnostics@[k].max_redir_entry
                },
            forall|k: int|
                0 <= k < i as int ==> mapper.entries().contains_key(
                    #[trigger] ((page0 + k) as u64),
                ) && mapper.entries()[(page0 + k) as u64] == (PageTableEntry {
                    frame: (interrupt_model.io_apics@[k].address as int / (
                    PAGE_SIZE as int)) as u64,
                    flags: DEVICE_PAGE_FLAGS,
                }),
            entries_preserved_outside(entries0, mapper.entries(), page0, i as int),
        decreases count - i,
    {
        let info = interrupt_model.io_apics[i];
        let page = page0 + i as u64;
        let virtual_base = page * PAGE_SIZE;
        proof {
            assert(page * (PAGE_SIZE as int) == remap_addr + i as int * (PAGE_SIZE as int));
        }
        let _virt = map_page(page, info.address as u64, mapper, frame_allocator,
            DEVICE_PAGE_FLAGS);
        let window = provider.window_at(virtual_base);
        let mut mapped_io_apic = MappedIoApic::new(
            window,
            info.id,
            virtual_base,
            info.global_system_interrupt_base,
        );
        let diagnostics = mapped_io_apic.init();
        mapped_io_apics.push(mapped_io_apic);
        io_diagnostics.push(diagnostics);
        i += 1;
    }
    (mapped_io_apics, io_diagnostics)
}

/// The boot-time entry point: maps and initializes the per-core
/// controller at `remap_addr` and each I/O controller of the firmware
/// descriptor at the following page slots, and returns the registry
/// with every driver initialized, together with the diagnostic dumps.
/// Initialization completes or fails atomically from the registry's
/// point of view: on failure no controller is published.  Every I/O
/// controller ends at a page-aligned virtual base distinct from the
/// per-core controller's.
#[verifier::loop_isolation(false)]
pub fn init<P: ApicBackendProvider, M: ApicBaseMsr, F: FrameSource, PT: PageMapper<F>>(
    interrupt_model: &ApicInfo,
    remap_addr: u64,
    mapper: &mut PT,
    frame_allocator: &mut F,
    provider: &mut P,
    base_msr: M,
) -> (r: Result<(ApicRegistry<P::Local, M, P::Window>, InitDiagnostics), LocalApiError>)
    requires
        remap_addr as int % (PAGE_SIZE as int) == 0,
        remap_addr + (interrupt_model.io_apics@.len() + 1) * (PAGE_SIZE as int) <= u64::MAX,
        forall|i: int|
            0 <= i < interrupt_model.io_apics@.len()
                ==> (#[trigger] interrupt_model.io_apics@[i]).address as int % (
            PAGE_SIZE as int) == 0,
        region_unmapped(
            old(mapper).entries(),
            (remap_addr as int / (PAGE_SIZE as int)) as u64,
            interrupt_model.io_apics@.len() as int + 1,
        ),
    ensures
        r matches Err(e) ==> e == LocalApiError::MissingCpuidFeatures,
        r matches Ok(pair) ==> {
            let registry = pair.0;
            &&& (registry.local_apic matches Some(local) && local.base_addr == remap_addr
                && local.state == LocalApicState::Initialized && local.base_msr.value()
                == base_msr.value() && (pair.1.local == local_apic::spec_diagnostics(
                local.regs.regs(),
                base_msr.value(),
                true,
            ) || pair.1.local == local_apic::spec_diagnostics(
                local.regs.regs(),
                base_msr.value(),
                false,
            )))
            &&& registry.io_apics@.len() == interrupt_model.io_apics@.len()
            &&& pair.1.io@.len() == interrupt_model.io_apics@.len()
            &&& forall|i: int|
                0 <= i < registry.io_apics@.len() ==> (#[trigger] pair.1.io@[i])
                    == ioapic::spec_io_diagnostics(registry.io_apics@[i].window.regs())
            &&& forall|i: int|
                0 <= i < registry.io_apics@.len() ==> {
                    &&& (#[trigger] registry.io_apics@[i]).id == interrupt_model.io_apics@[i].id
                    &&& registry.io_apics@[i].interrupt_base
                        == interrupt_model.io_apics@[i].global_system_interrupt_base
                    &&& registry.io_apics@[i].base_addr == remap_addr + (i + 1) * (
                    PAGE_SIZE as int)
                    &&& registry.io_apics@[i].base_addr as int % (PAGE_SIZE as int) == 0
                    &&& registry.io_apics@[i].base_addr != remap_addr
                }
        },
        entries_preserved_outside(
            old(mapper).entries(),
            final(mapper).entries(),
            (remap_addr as int / (PAGE_SIZE as int)) as u64,
            interrupt_model.io_apics@.len() as int + 1,
        ),
        final(mapper).entries().contains_key(
            (remap_addr as int / (PAGE_SIZE as int)) as u64,
        ) && final(mapper).entries()[(remap_addr as int / (PAGE_SIZE as int)) as u64]
            == (PageTableEntry {
            frame: ((base_msr.value() & !0xfff) as int / (PAGE_SIZE as int)) as u64,
            flags: DEVICE_PAGE_FLAGS,
        }),
        r is Ok ==> forall|i: int|
            0 <= i < interrupt_model.io_apics@.len() ==> final(mapper).entries().contains_key(
                #[trigger] ((remap_addr as int / (PAGE_SIZE as int) + 1 + i) as u64),
            ) && final(mapper).entries()[(remap_addr as int / (PAGE_SIZE as int) + 1 + i) as u64]
                == (PageTableEntry {
                frame: (interrupt_model.io_apics@[i].address as int / (PAGE_SIZE as int)) as u64,
                flags: DEVICE_PAGE_FLAGS,
            }),
{
    let ghost q = remap_addr as int / (PAGE_SIZE as int);
    let ghost io_count = interrupt_model.io_apics@.len() as int;
    proof {
        lemma_fundamental_div_mod(remap_addr as int, PAGE_SIZE as int);
        lemma_div_multiples_vanish(q + 1, PAGE_SIZE as int);
        assert((q + io_count + 1) * (PAGE_SIZE as int) <= remap_addr + (io_count + 1) * (
        PAGE_SIZE as int));
    }
    let ghost entries0 = mapper.entries();
    match init_local(base_msr, remap_addr, mapper, frame_allocator, provider) {
        Err(e) => {
            proof {
                assert(entries_preserved_outside(
                    entries0,
                    mapper.entries(),
                    q as u64,
                    io_count + 1,
                ));
            }
            Err(e)
        },
        Ok((local_apic, local_diagnostics)) => {
            let io_base = remap_addr + PAGE_SIZE;
            proof {
                assert(io_base as int / (PAGE_SIZE as int) == q + 1);
                assert(region_unmapped(mapper.entries(), (q + 1) as u64, io_count));
            }
            let ghost entries1 = mapper.entries();
            let (io_apics, io_diagnostics) = init_io(
                interrupt_model,
                io_base,
                mapper,
                frame_allocator,
                provider,
            );
            proof {
                assert forall|i: int| 0 <= i < io_apics@.len() implies (#[trigger] io_apics@[i])
                    .base_addr as int % (PAGE_SIZE as int) == 0 by {
                    assert(io_apics@[i].base_addr == remap_addr + (i + 1) * (PAGE_SIZE as int));
                    lemma_div_multiples_vanish(q + (i + 1), PAGE_SIZE as int);
                    assert(io_apics@[i].base_addr as int == (PAGE_SIZE as int) * (q + (i + 1)));
                }
                assert forall|i: int| 0 <= i < io_count implies mapper.entries().contains_key(
                    #[trigger] ((q + 1 + i) as u64),
                ) && mapper.entries()[(q + 1 + i) as u64] == (PageTableEntry {
                    frame: (interrupt_model.io_apics@[i].address as int / (
                    PAGE_SIZE as int)) as u64,
                    flags: DEVICE_PAGE_FLAGS,
                }) by {
                    assert((io_base as int / (PAGE_SIZE as int) + i) as u64 == (q + 1 + i) as u64);
                    assert(mapper.entries().contains_key(
                        ((io_base as int / (PAGE_SIZE as int) + i) as u64),
                    ));
                }
                assert(mapper.entries().contains_key(q as u64) == entries1.contains_key(q as u64));
                assert(entries_preserved_outside(entries0, mapper.entries(), q as u64,
                    io_count + 1)) by {
                    assert forall|p: u64| !(q as u64 <= p < q as u64 + (io_count + 1)) implies
                        mapper.entries().contains_key(p) == entries0.contains_key(p) && (
                        entries0.contains_key(p) ==> mapper.entries()[p] == entries0[p]) by {
                        assert(entries1.contains_key(p) == entries0.contains_key(p));
                        assert(mapper.entries().contains_key(p) == entries1.contains_key(p));
                    }
                }
            }
            let registry = ApicRegistry { local_apic: Some(local_apic), io_apics };
            let diagnostics = InitDiagnostics { local: local_diagnostics, io: io_diagnostics };
            Ok((registry, diagnostics))
        },
    }
}

} // verus!
