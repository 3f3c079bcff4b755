use apic::local_apic::LocalApicState;
use apic::memory::{PageTableModel, PAGE_SIZE};
use apic::mock::{MockBackendProvider, MockBaseMsr, MockFrameSource, MockPageTable};
use apic::msr::APIC_BASE_GLOBAL_ENABLE;
use apic::{init, ApicInfo, IoApicInfo};

const REMAP_BASE: u64 = 0x5555_5555_0000;

#[test]
fn one_io_controller_ends_up_in_the_registry() {
    let interrupt_model = ApicInfo {
        io_apics: vec![IoApicInfo { id: 0, address: 0xFEC0_0000, global_system_interrupt_base: 0 }],
    };
    let mut page_table = MockPageTable::new();
    let mut frames = MockFrameSource::new();
    let mut provider = MockBackendProvider::new();
    let base_msr = MockBaseMsr::new(0xFEE0_0000 | APIC_BASE_GLOBAL_ENABLE);

    let (registry, diagnostics) = init(
        &interrupt_model,
        REMAP_BASE,
        &mut page_table,
        &mut frames,
        &mut provider,
        base_msr,
    )
    .unwrap();

    // exactly one I/O controller, serving global interrupts from zero
    assert_eq!(registry.io_apics.len(), 1);
    assert_eq!(registry.io_apics[0].interrupt_base, 0);
    assert_eq!(registry.io_apics[0].id, 0);

    // its virtual base is page-aligned and distinct from the local
    // controller's
    let local = registry.local_apic.as_ref().expect("local controller");
    assert_eq!(local.base_addr, REMAP_BASE);
    assert_eq!(local.state, LocalApicState::Initialized);
    assert_eq!(registry.io_apics[0].base_addr % PAGE_SIZE, 0);
    assert_ne!(registry.io_apics[0].base_addr, local.base_addr);
    assert_eq!(registry.io_apics[0].base_addr, REMAP_BASE + PAGE_SIZE);

    // both windows were mapped, each at its own page
    assert!(page_table.is_mapped(REMAP_BASE / PAGE_SIZE));
    assert!(page_table.is_mapped(REMAP_BASE / PAGE_SIZE + 1));
    assert!(!page_table.is_mapped(REMAP_BASE / PAGE_SIZE + 2));

    assert_eq!(diagnostics.io.len(), 1);
    assert_eq!(diagnostics.local.base_phys_addr, 0xFEE0_0000);
    assert!(diagnostics.local.global_enabled);
}

#[test]
fn controllers_line_up_with_the_descriptor_order() {
    let interrupt_model = ApicInfo {
        io_apics: vec![
            IoApicInfo { id: 4, address: 0xFEC0_0000, global_system_interrupt_base: 0 },
            IoApicInfo { id: 5, address: 0xFEC1_0000, global_system_interrupt_base: 24 },
        ],
    };
    let mut page_table = MockPageTable::new();
    let mut frames = MockFrameSource::new();
    let mut provider = MockBackendProvider::new();
    let base_msr = MockBaseMsr::new(0xFEE0_0000);

    let (registry, _diagnostics) = init(
        &interrupt_model,
        REMAP_BASE,
        &mut page_table,
        &mut frames,
        &mut provider,
        base_msr,
    )
    .unwrap();

    assert_eq!(registry.io_apics.len(), 2);
    assert_eq!(registry.io_apics[0].id, 4);
    assert_eq!(registry.io_apics[0].interrupt_base, 0);
    assert_eq!(registry.io_apics[0].base_addr, REMAP_BASE + PAGE_SIZE);
    assert_eq!(registry.io_apics[1].id, 5);
    assert_eq!(registry.io_apics[1].interrupt_base, 24);
    assert_eq!(registry.io_apics[1].base_addr, REMAP_BASE + 2 * PAGE_SIZE);
}

#[test]
fn empty_descriptor_still_initializes_the_local_controller() {
    let interrupt_model = ApicInfo { io_apics: vec![] };
    let mut page_table = MockPageTable::new();
    let mut frames = MockFrameSource::new();
    let mut provider = MockBackendProvider::new();
    let base_msr = MockBaseMsr::new(0xFEE0_0000);

    let (registry, diagnostics) = init(
        &interrupt_model,
        REMAP_BASE,
        &mut page_table,
        &mut frames,
        &mut provider,
        base_msr,
    )
    .unwrap();

    assert!(registry.local_apic.is_some());
    assert!(registry.io_apics.is_empty());
    assert!(diagnostics.io.is_empty());
    assert!(page_table.is_mapped(REMAP_BASE / PAGE_SIZE));
    assert!(!page_table.is_mapped(REMAP_BASE / PAGE_SIZE + 1));
}
