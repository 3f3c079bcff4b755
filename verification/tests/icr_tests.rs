use apic::icr::{DeliveryMode, InterruptCommandFlags, ICR_DELIVERY_MODE};

#[test]
fn delivery_mode_bytes_decode_in_order() {
    let expected = [
        DeliveryMode::Fixed,
        DeliveryMode::LowestPriority,
        DeliveryMode::SMI,
        DeliveryMode::Reserved,
        DeliveryMode::NMI,
        DeliveryMode::INIT,
        DeliveryMode::StartUp,
        DeliveryMode::Reserved2,
    ];
    for (value, mode) in expected.iter().enumerate() {
        assert_eq!(DeliveryMode::try_from(value as u8), Ok(*mode));
    }
}

#[test]
fn delivery_mode_bytes_above_seven_are_invalid() {
    for value in 8..=255u8 {
        assert!(DeliveryMode::try_from(value).is_err());
    }
}

#[test]
fn delivery_mode_encodes_back_to_its_byte() {
    assert_eq!(DeliveryMode::Fixed.as_u8(), 0x0);
    assert_eq!(DeliveryMode::LowestPriority.as_u8(), 0x1);
    assert_eq!(DeliveryMode::SMI.as_u8(), 0x2);
    assert_eq!(DeliveryMode::Reserved.as_u8(), 0x3);
    assert_eq!(DeliveryMode::NMI.as_u8(), 0x4);
    assert_eq!(DeliveryMode::INIT.as_u8(), 0x5);
    assert_eq!(DeliveryMode::StartUp.as_u8(), 0x6);
    assert_eq!(DeliveryMode::Reserved2.as_u8(), 0x7);
    assert_eq!(DeliveryMode::StartUp.as_u64(), 0x6);
}

#[test]
fn as_flags_shifts_into_the_delivery_mode_field() {
    let flags = DeliveryMode::NMI.as_flags();
    assert_eq!(flags.bits(), 0x400);
    assert_eq!(flags.bits() & ICR_DELIVERY_MODE, flags.bits());
    assert_eq!(flags.delivery_mode(), DeliveryMode::NMI);
}

#[test]
fn command_word_round_trips_its_delivery_mode() {
    for value in 0..=7u8 {
        let word = InterruptCommandFlags { bits: 0xFF00_0000_0000_0041 | ((value as u64) << 8) };
        assert_eq!(word.delivery_mode().as_u8(), value);
    }
}

#[test]
fn from_bits_accepts_every_command_word() {
    assert_eq!(
        InterruptCommandFlags::from_bits(0xffff_ffff_ffff_ffff),
        Some(InterruptCommandFlags { bits: 0xffff_ffff_ffff_ffff })
    );
    assert_eq!(InterruptCommandFlags::from_bits(0).unwrap().bits(), 0);
}
