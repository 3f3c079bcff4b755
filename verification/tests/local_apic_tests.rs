use apic::local_apic::{LocalApicState, MappedLocalApic, SIVR_ENABLE};
use apic::local_registers::{
    Id4BitRegister, Id8BitRegister, LocalApic, LocalApicRegister, LocalApicRegisterIndex,
    VersionRegister,
};
use apic::mock::{MockBaseMsr, MockLocalApic};
use apic::msr::{APIC_BASE_GLOBAL_ENABLE, IA32_APIC_BASE_MSR};

const MSR_WORD: u64 = 0xFEE0_0000 | APIC_BASE_GLOBAL_ENABLE | 0x100;

fn fresh_driver() -> MappedLocalApic<MockLocalApic, MockBaseMsr> {
    MappedLocalApic::new(0x5555_5555_0000, MockLocalApic::new(), MockBaseMsr::new(MSR_WORD))
}

#[test]
fn register_offsets_match_the_layout() {
    assert_eq!(LocalApicRegisterIndex::Id.as_u32(), 0x20);
    assert_eq!(LocalApicRegisterIndex::Version.as_u32(), 0x30);
    assert_eq!(LocalApicRegisterIndex::TaskPriority.as_u32(), 0x80);
    assert_eq!(LocalApicRegisterIndex::ArbitrationPriority.as_u32(), 0x90);
    assert_eq!(LocalApicRegisterIndex::ProcessPriority.as_u32(), 0xa0);
    assert_eq!(LocalApicRegisterIndex::EndOfInterrupt.as_u32(), 0xb0);
    assert_eq!(LocalApicRegisterIndex::RemoteRead.as_u32(), 0xc0);
    assert_eq!(LocalApicRegisterIndex::LocalDestination.as_u32(), 0xd0);
    assert_eq!(LocalApicRegisterIndex::DestinationFormat.as_u32(), 0xe0);
    assert_eq!(LocalApicRegisterIndex::SpuriousInterrupt.as_u32(), 0xf0);
    assert_eq!(LocalApicRegisterIndex::InterruptCommandLow.as_u32(), 0x300);
    assert_eq!(LocalApicRegisterIndex::InterruptCommandHigh.as_u32(), 0x310);
    assert_eq!(LocalApicRegisterIndex::Version.as_u64(), 0x30);
    assert_eq!(IA32_APIC_BASE_MSR, 0x1b);
}

#[test]
fn identity_register_has_two_decodes() {
    let mut regs = MockLocalApic::new();
    regs.write_reg_32(LocalApicRegisterIndex::Id, 0xAB00_0000);
    assert_eq!(Id8BitRegister.read(&regs), 0xAB);
    assert_eq!(Id4BitRegister.read(&regs), 0x0B);
    Id8BitRegister.write(&mut regs, 0x7F);
    assert_eq!(regs.read_reg_32(LocalApicRegisterIndex::Id), 0x7F00_0000);
}

#[test]
fn version_register_reads_its_low_byte() {
    let mut regs = MockLocalApic::new();
    regs.write_reg_32(LocalApicRegisterIndex::Version, 0x0005_0014);
    assert_eq!(VersionRegister.read(&regs), 0x14);
}

#[test]
fn base_address_is_the_word_above_twelve_bits() {
    let mut driver = fresh_driver();
    assert_eq!(driver.read_base_msr(), MSR_WORD);
    assert_eq!(driver.get_base_phys_addr(), 0xFEE0_0000);
    assert_eq!(driver.get_base_phys_addr() % 4096, 0);
}

#[test]
fn global_disable_clears_only_the_enable_bit() {
    let mut driver = fresh_driver();
    assert!(driver.is_global_enabled());
    driver.global_disable();
    assert!(!driver.is_global_enabled());
    // every bit but global-enable survives, the base bits in particular
    assert_eq!(driver.read_base_msr(), MSR_WORD & !APIC_BASE_GLOBAL_ENABLE);
    assert_eq!(driver.read_base_msr() & !0xfff, MSR_WORD & !0xfff);
}

#[test]
fn global_enable_toggle_keeps_base_bits() {
    let mut driver = fresh_driver();
    let before = driver.read_base_msr();
    driver.global_disable();
    let disabled = driver.read_base_msr();
    driver.write_base_msr(disabled | APIC_BASE_GLOBAL_ENABLE);
    assert_eq!(driver.read_base_msr() & !0xfff, before & !0xfff);
    assert!(driver.is_global_enabled());
}

#[test]
fn init_reads_the_diagnostic_registers() {
    let mut driver = fresh_driver();
    driver.regs.write_reg_32(LocalApicRegisterIndex::Id, 0xAB00_0000);
    driver.regs.write_reg_32(LocalApicRegisterIndex::Version, 0x0005_0014);
    driver.regs.write_reg_32(LocalApicRegisterIndex::TaskPriority, 0x20);
    driver.regs.write_reg_32(LocalApicRegisterIndex::InterruptCommandLow, 0x0000_4041);
    driver.regs.write_reg_32(LocalApicRegisterIndex::InterruptCommandHigh, 0x0300_0000);
    driver.regs.write_reg_32(LocalApicRegisterIndex::LvtTimer, 0x0001_0020);
    let diagnostics = driver.init_with(true);
    assert_eq!(driver.state, LocalApicState::Initialized);
    assert_eq!(diagnostics.id, 0xAB);
    assert_eq!(diagnostics.version, 0x14);
    assert_eq!(diagnostics.tpr, 0x20);
    assert_eq!(diagnostics.icr.bits(), 0x0300_0000_0000_4041);
    assert_eq!(diagnostics.lvt_timer, 0x0001_0020);
    assert_eq!(diagnostics.base_phys_addr, 0xFEE0_0000);
    assert!(diagnostics.global_enabled);
}

#[test]
fn init_with_selects_the_identity_decode() {
    let mut eight = fresh_driver();
    eight.regs.write_reg_32(LocalApicRegisterIndex::Id, 0xAB00_0000);
    assert_eq!(eight.init_with(true).id, 0xAB);

    let mut four = fresh_driver();
    four.regs.write_reg_32(LocalApicRegisterIndex::Id, 0xAB00_0000);
    assert_eq!(four.init_with(false).id, 0x0B);
}

#[test]
fn init_probes_the_processor_generation() {
    let mut driver = fresh_driver();
    driver.regs.write_reg_32(LocalApicRegisterIndex::Id, 0xAB00_0000);
    // the running processor answers the probe, so init succeeds and the
    // identity comes out under one of the two decodes
    let diagnostics = driver.init().unwrap();
    assert_eq!(driver.state, LocalApicState::Initialized);
    assert!(diagnostics.id == 0xAB || diagnostics.id == 0x0B);
}

#[test]
fn enable_and_disable_toggle_the_software_enable_bit() {
    let mut driver = fresh_driver();
    driver.init().unwrap();
    assert!(!driver.is_enabled());
    driver.enable();
    assert!(driver.is_enabled());
    assert_eq!(driver.state, LocalApicState::Enabled);
    assert_eq!(
        driver.regs.read_reg_32(LocalApicRegisterIndex::SpuriousInterrupt) & SIVR_ENABLE,
        SIVR_ENABLE
    );
    driver.disable();
    assert!(!driver.is_enabled());
    assert_eq!(driver.state, LocalApicState::Initialized);
}
