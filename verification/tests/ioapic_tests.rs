use apic::icr::DeliveryMode;
use apic::ioapic::{
    IoApic64BitRegisterIndex, IoApicReg, MappedIoApic, RedirectionEntry, WindowOp, REDIR_MASK,
    REDIR_RESERVED,
};
use apic::mock::MockIoApicWindow;

fn fresh_driver() -> MappedIoApic<MockIoApicWindow> {
    MappedIoApic::new(MockIoApicWindow::new(), 0, 0x5555_5555_1000, 0)
}

#[test]
fn register_indices_decode() {
    assert_eq!(IoApicReg::Id.as_u8(), 0x0);
    assert_eq!(IoApicReg::Version.as_u8(), 0x1);
    assert_eq!(IoApicReg::Id.as_u32(), 0x0);
    assert_eq!(IoApicReg::Version.as_u32(), 0x1);
}

#[test]
fn redirection_entry_indices_are_consecutive_pairs() {
    let driver = fresh_driver();
    assert_eq!(
        driver.indexes_for_64bit_registers(IoApic64BitRegisterIndex::RedirectionEntry(0)),
        (0x10, 0x11)
    );
    assert_eq!(
        driver.indexes_for_64bit_registers(IoApic64BitRegisterIndex::RedirectionEntry(7)),
        (0x1e, 0x1f)
    );
}

#[test]
fn from_bits_accepts_every_word() {
    assert_eq!(
        RedirectionEntry::from_bits(0xffff_ffff_ffff_ffff),
        Some(RedirectionEntry { bits: 0xffff_ffff_ffff_ffff })
    );
    assert_eq!(RedirectionEntry::from_bits(0), Some(RedirectionEntry { bits: 0 }));
}

#[test]
fn redirection_entry_fields_decode() {
    let entry = RedirectionEntry::from_bits(0xAB00_0000_0001_0342).unwrap();
    assert_eq!(entry.vector(), 0x42);
    assert_eq!(entry.delivery_mode(), DeliveryMode::Reserved);
    assert!(entry.masked());
    assert_eq!(entry.destination(), 0xAB);
    assert_eq!(entry.bits & REDIR_MASK, REDIR_MASK);
}

#[test]
fn write_redirection_entry_issues_two_window_writes_low_first() {
    let mut driver = fresh_driver();
    driver.max_redir_entry = 23;
    let value = 0xAB00_0000_0001_0342u64;
    driver.write_redir_entry(1, RedirectionEntry::from_bits(value).unwrap());
    assert_eq!(
        driver.window.log,
        vec![
            WindowOp::Select(0x12),
            WindowOp::Write(0x0001_0342),
            WindowOp::Select(0x13),
            WindowOp::Write(0xAB00_0000),
        ]
    );
}

#[test]
fn read_redirection_entry_issues_two_window_reads_low_first() {
    let mut driver = fresh_driver();
    driver.max_redir_entry = 23;
    driver.write_redir_entry(2, RedirectionEntry::from_bits(0x1200_0000_0000_00FFu64).unwrap());
    let writes = driver.window.log.len();
    let entry = driver.read_redir_entry(2);
    assert_eq!(entry.bits, 0x1200_0000_0000_00FF);
    assert_eq!(
        &driver.window.log[writes..],
        &[
            WindowOp::Select(0x14),
            WindowOp::Read(0x0000_00FF),
            WindowOp::Select(0x15),
            WindowOp::Read(0x1200_0000),
        ]
    );
}

#[test]
fn redirection_entry_round_trips_through_the_device() {
    let mut driver = fresh_driver();
    driver.max_redir_entry = 23;
    // every field set, reserved bits clear
    let value = 0xFF00_0000_0001_FFFFu64 & !REDIR_RESERVED;
    driver.write_redir_entry(3, RedirectionEntry::from_bits(value).unwrap());
    assert_eq!(driver.read_redir_entry(3).bits, value);
}

#[test]
fn reserved_bits_are_preserved_on_write_and_masked_on_read() {
    let mut driver = fresh_driver();
    driver.max_redir_entry = 23;
    let with_reserved = 0x0000_1234_5067_0042u64;
    assert_ne!(with_reserved & REDIR_RESERVED, 0);
    driver.write_redir_entry(0, RedirectionEntry { bits: with_reserved });
    // written verbatim: both words carry the reserved bits
    assert_eq!(driver.window.store[0x10], with_reserved as u32);
    assert_eq!(driver.window.store[0x11], (with_reserved >> 32) as u32);
    // read masked: reserved bits come back zero
    assert_eq!(driver.read_redir_entry(0).bits, with_reserved & !REDIR_RESERVED);
}

#[test]
fn init_decodes_identity_version_and_capacity() {
    let mut driver = fresh_driver();
    // identity register: bits 24..=31 hold 0xAB, of which the decode
    // keeps the high nibble field
    driver.write_reg_32(0x0, 0xAB00_0000);
    // version register: version 0x11, highest redirection index 0x17
    driver.write_reg_32(0x1, 0x0017_0011);
    let diagnostics = driver.init();
    assert_eq!(diagnostics.id, 0xA0);
    assert_eq!(diagnostics.version, 0x11);
    assert_eq!(diagnostics.max_redir_entry, 0x17);
    assert_eq!(driver.max_redir_entry, 0x17);
}
