//! Interrupt-command register: the 64-bit bit layout of the local
//! controller's command register, and the three-bit delivery-mode field
//! shared with I/O redirection entries.

use vstd::prelude::*;

verus! {

/// Bit masks of the interrupt-command register, one per field.
pub const ICR_VECTOR: u64 = 0xff;
pub const ICR_DELIVERY_MODE: u64 = 0x700;
pub const ICR_DELIVERY_MODE_LOWEST_PRIORITY: u64 = 0x100;
pub const ICR_DELIVERY_MODE_SMI: u64 = 0x200;
pub const ICR_DELIVERY_MODE_RESERVED: u64 = 0x300;
pub const ICR_DELIVERY_MODE_NMI: u64 = 0x400;
pub const ICR_DELIVERY_MODE_INIT: u64 = 0x500;
pub const ICR_DELIVERY_MODE_START_UP: u64 = 0x600;
pub const ICR_DELIVERY_MODE_RESERVED2: u64 = 0x700;
pub const ICR_DESTINATION_MODE: u64 = 0x800;
pub const ICR_DELIVERY_STATUS: u64 = 0x1000;
pub const ICR_RESERVED: u64 = 0x2000;
pub const ICR_LEVEL: u64 = 0x4000;
pub const ICR_TRIGGER_MODE: u64 = 0x8000;
pub const ICR_RESERVED2: u64 = 0x30000;
pub const ICR_DESTINATION_SHORTHAND: u64 = 0xc0000;
pub const ICR_RESERVED3: u64 = 0x00ffffff_fff00000;
pub const ICR_DESTINATION: u64 = 0xff000000_00000000;

/// Union of every named field mask; the named fields cover the whole word.
pub const ICR_ALL: u64 = 0xffffffff_ffffffff;

/// The delivery-mode field: three bits selecting how an interrupt is
/// delivered.  The eight byte encodings 0x0 through 0x7 map, in order, to
/// the eight variants below; any larger byte has no delivery mode.
#[derive(Copy, Clone, Debug, PartialEq, Eq, Structural)]
pub enum DeliveryMode {
    Fixed,
    LowestPriority,
    SMI,
    Reserved,
    NMI,
    INIT,
    StartUp,
    Reserved2,
}

/// The byte encoding of each delivery mode, in field order.
pub open spec fn spec_delivery_mode_u8(m: DeliveryMode) -> u8 {
    match m {
        DeliveryMode::Fixed => 0x0,
        DeliveryMode::LowestPriority => 0x1,
        DeliveryMode::SMI => 0x2,
        DeliveryMode::Reserved => 0x3,
        DeliveryMode::NMI => 0x4,
        DeliveryMode::INIT => 0x5,
        DeliveryMode::StartUp => 0x6,
        DeliveryMode::Reserved2 => 0x7,
    }
}

/// The delivery mode a byte decodes to, where one exists.
pub open spec fn spec_delivery_mode_of(value: u8) -> Option<DeliveryMode> {
    if value == 0x0 {
        Some(DeliveryMode::Fixed)
    } else if value == 0x1 {
        Some(DeliveryMode::LowestPriority)
    } else if value == 0x2 {
        Some(DeliveryMode::SMI)
    } else if value == 0x3 {
        Some(DeliveryMode::Reserved)
    } else if value == 0x4 {
        Some(DeliveryMode::NMI)
    } else if value == 0x5 {
        Some(DeliveryMode::INIT)
    } else if value == 0x6 {
        Some(DeliveryMode::StartUp)
    } else if value == 0x7 {
        Some(DeliveryMode::Reserved2)
    } else {
        None
    }
}

impl DeliveryMode {
    pub fn as_u8(self) -> (r: u8)
        ensures
            r == spec_delivery_mode_u8(self),
    {
        match self {
            DeliveryMode::Fixed => 0x0,
            DeliveryMode::LowestPriority => 0x1,
            DeliveryMode::SMI => 0x2,
            DeliveryMode::Reserved => 0x3,
            DeliveryMode::NMI => 0x4,
            DeliveryMode::INIT => 0x5,
            DeliveryMode::StartUp => 0x6,
            DeliveryMode::Reserved2 => 0x7,
        }
    }

    pub fn as_u64(self) -> (r: u64)
        ensures
            r == spec_delivery_mode_u8(self) as u64,
    {
        self.as_u8() as u64
    }

    /// The command-register word holding only this delivery mode, i.e. the
    /// byte encoding shifted into the delivery-mode field.
    pub fn as_flags(self) -> (r: InterruptCommandFlags)
        ensures
            r.bits == (spec_delivery_mode_u8(self) as u64) << 8,
            r.bits & ICR_DELIVERY_MODE == r.bits,
    {
        let v: u64 = self.as_u64() << 8;
        proof {
            let b = spec_delivery_mode_u8(self);
            assert(b <= 7 ==> ((b as u64) << 8) & 0x700u64 == ((b as u64) << 8))
                by (bit_vector);
            assert(b <= 7);
        }
        let f = InterruptCommandFlags::from_bits(v);
        match f {
            Some(flags) => flags,
            None => {
                proof {
                    assert(false);
                }
                InterruptCommandFlags { bits: 0 }
            },
        }
    }

    /// Decode of a delivery-mode byte: values 0x0 through 0x7 give the
    /// eight modes in order; any other byte is an invalid delivery mode.
    pub fn try_from(value: u8) -> (r: Result<DeliveryMode, &'static str>)
        ensures
            value <= 0x7 <==> r is Ok,
            r is Ok ==> Some(r->Ok_0) == spec_delivery_mode_of(value),
            r matches Err(e) ==> e@ == "invalid delivery mode"@,
    {
        proof {
            reveal_strlit("invalid delivery mode");
        }
        match value {
            0x0 => Ok(DeliveryMode::Fixed),
            0x1 => Ok(DeliveryMode::LowestPriority),
            0x2 => Ok(DeliveryMode::SMI),
            0x3 => Ok(DeliveryMode::Reserved),
            0x4 => Ok(DeliveryMode::NMI),
            0x5 => Ok(DeliveryMode::INIT),
            0x6 => Ok(DeliveryMode::StartUp),
            0x7 => Ok(DeliveryMode::Reserved2),
            _ => Err("invalid delivery mode"),
        }
    }
}

/// Every delivery mode encodes to a byte that decodes back to it.
pub proof fn lemma_delivery_mode_round_trip(m: DeliveryMode)
    ensures
        spec_delivery_mode_of(spec_delivery_mode_u8(m)) == Some(m),
{
}

/// A value of the 64-bit interrupt-command register.  Every bit belongs to
/// a named field (`ICR_ALL` covers the word), so any word is a valid value.
#[derive(Copy, Clone, Debug, PartialEq, Eq, Structural)]
pub struct InterruptCommandFlags {
    pub bits: u64,
}

impl InterruptCommandFlags {
    /// Accepts a word exactly when it holds no bit outside the named
    /// fields; as those cover all sixty-four bits, every word is accepted.
    pub fn from_bits(bits: u64) -> (r: Option<InterruptCommandFlags>)
        ensures
            r == Some(InterruptCommandFlags { bits }),
    {
        proof {
            assert(bits & !0xffffffff_ffffffffu64 == 0) by (bit_vector);
        }
        if bits & !ICR_ALL == 0 {
            Some(InterruptCommandFlags { bits })
        } else {
            None
        }
    }

    pub fn bits(self) -> (r: u64)
        ensures
            r == self.bits,
    {
        self.bits
    }

    /// The delivery mode carried in bits 8 through 10.  The field is three
    /// bits wide, so the decode always finds a mode.
    pub fn delivery_mode(&self) -> (r: DeliveryMode)
        ensures
            Some(r) == spec_delivery_mode_of(((self.bits >> 8) & 0x7) as u8),
    {
        let b = self.bits;
        let byte: u8 = ((b & ICR_DELIVERY_MODE) >> 8) as u8;
        proof {
            assert((b & 0x700u64) >> 8 == (b >> 8) & 0x7u64) by (bit_vector);
            assert(((b & 0x700u64) >> 8) as u8 <= 7) by (bit_vector);
        }
        match DeliveryMode::try_from(byte) {
            Ok(m) => m,
            Err(_) => {
                proof {
                    assert(false);
                }
                DeliveryMode::Fixed
            },
        }
    }
}

} // verus!
