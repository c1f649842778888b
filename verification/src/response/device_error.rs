//! The fault byte of a measurement frame.
//!
//! | Bit 7  | Bit 6                | Bit 5      | Bit 4 | Bit 3       | Bit 2      | Bit 1         | Bit 0                 |
//! |--------|----------------------|------------|-------|-------------|------------|---------------|-----------------------|
//! | unused | temp/humidity sensor | VOC sensor | laser | fan stopped | photodiode | fan-speed low | too many fan restarts |

use vstd::prelude::*;

verus! {

/// Mask of the "too many fan restarts" flag.
pub const FAN_RESTARTS: u8 = 0x01;

/// Mask of the "fan-speed low" flag.
pub const FAN_SPEED_LOW: u8 = 0x02;

/// Mask of the "photodiode" flag.
pub const PHOTODIODE: u8 = 0x04;

/// Mask of the "fan stopped" flag.
pub const FAN_STOPPED: u8 = 0x08;

/// Mask of the "laser" flag.
pub const LASER: u8 = 0x10;

/// Mask of the "VOC sensor" flag.
pub const VOC_SENSOR: u8 = 0x20;

/// Mask of the "temperature/humidity sensor" flag.
pub const TEMPERATURE_HUMIDITY_SENSOR: u8 = 0x40;

/// Mask of the bit that the device leaves unused.
pub const UNUSED: u8 = 0x80;

/// Whether the bit of weight `weight` (a power of two) is set in `bits`.
pub open spec fn flag(bits: u8, weight: u8) -> bool
    recommends
        weight > 0,
{
    (bits as int / weight as int) % 2 == 1
}

/// The fault byte of the device: seven independent flags, zero meaning that
/// nothing is wrong.
#[derive(Debug, Clone, Copy, PartialEq, Eq, Structural)]
pub struct DeviceErrorCode(pub u8);

impl DeviceErrorCode {
    /// The fan had to be restarted too often.
    pub fn fan_restarts(&self) -> (set: bool)
        ensures
            set == flag(self.0, FAN_RESTARTS),
    {
        let bits: u8 = self.0;
        assert((bits & 0x01 != 0) == ((bits / 0x01) % 2 == 1)) by (bit_vector);
        bits & FAN_RESTARTS != 0
    }

    /// The fan runs slower than it should.
    pub fn fan_speed_low(&self) -> (set: bool)
        ensures
            set == flag(self.0, FAN_SPEED_LOW),
    {
        let bits: u8 = self.0;
        assert((bits & 0x02 != 0) == ((bits / 0x02) % 2 == 1)) by (bit_vector);
        bits & FAN_SPEED_LOW != 0
    }

    /// The photodiode failed.
    pub fn photodiode(&self) -> (set: bool)
        ensures
            set == flag(self.0, PHOTODIODE),
    {
        let bits: u8 = self.0;
        assert((bits & 0x04 != 0) == ((bits / 0x04) % 2 == 1)) by (bit_vector);
        bits & PHOTODIODE != 0
    }

    /// The fan does not turn.
    pub fn fan_stopped(&self) -> (set: bool)
        ensures
            set == flag(self.0, FAN_STOPPED),
    {
        let bits: u8 = self.0;
        assert((bits & 0x08 != 0) == ((bits / 0x08) % 2 == 1)) by (bit_vector);
        bits & FAN_STOPPED != 0
    }

    /// The laser failed.
    pub fn laser(&self) -> (set: bool)
        ensures
            set == flag(self.0, LASER),
    {
        let bits: u8 = self.0;
        assert((bits & 0x10 != 0) == ((bits / 0x10) % 2 == 1)) by (bit_vector);
        bits & LASER != 0
    }

    /// The VOC sensor failed.
    pub fn voc_sensor(&self) -> (set: bool)
        ensures
            set == flag(self.0, VOC_SENSOR),
    {
        let bits: u8 = self.0;
        assert((bits & 0x20 != 0) == ((bits / 0x20) % 2 == 1)) by (bit_vector);
        bits & VOC_SENSOR != 0
    }

    /// The temperature and humidity sensor failed.
    pub fn temperature_humidity_sensor(&self) -> (set: bool)
        ensures
            set == flag(self.0, TEMPERATURE_HUMIDITY_SENSOR),
    {
        let bits: u8 = self.0;
        assert((bits & 0x40 != 0) == ((bits / 0x40) % 2 == 1)) by (bit_vector);
        bits & TEMPERATURE_HUMIDITY_SENSOR != 0
    }
}

/// The flags are independent and together make up the byte: it is the sum
/// of the weights of the bits that are set.
pub proof fn lemma_flags_make_up_code(bits: u8)
    ensures
        bits as int == (if flag(bits, FAN_RESTARTS) { 0x01int } else { 0 })
            + (if flag(bits, FAN_SPEED_LOW) { 0x02int } else { 0 })
            + (if flag(bits, PHOTODIODE) { 0x04int } else { 0 })
            + (if flag(bits, FAN_STOPPED) { 0x08int } else { 0 })
            + (if flag(bits, LASER) { 0x10int } else { 0 })
            + (if flag(bits, VOC_SENSOR) { 0x20int } else { 0 })
            + (if flag(bits, TEMPERATURE_HUMIDITY_SENSOR) { 0x40int } else { 0 })
            + (if flag(bits, UNUSED) { 0x80int } else { 0 }),
{
    let b0: int = bits as int;
    let b1: int = b0 / 2;
    let b2: int = b1 / 2;
    let b3: int = b2 / 2;
    let b4: int = b3 / 2;
    let b5: int = b4 / 2;
    let b6: int = b5 / 2;
    let b7: int = b6 / 2;
    assert(b1 == b0 / 0x02 && b2 == b0 / 0x04 && b3 == b0 / 0x08 && b4 == b0 / 0x10);
    assert(b5 == b0 / 0x20 && b6 == b0 / 0x40 && b7 == b0 / 0x80);
    assert(b0 == 2 * b1 + b0 % 2 && b1 == 2 * b2 + b1 % 2 && b2 == 2 * b3 + b2 % 2);
    assert(b3 == 2 * b4 + b3 % 2 && b4 == 2 * b5 + b4 % 2 && b5 == 2 * b6 + b5 % 2);
    assert(b6 == 2 * b7 + b6 % 2 && b7 == b7 % 2);
}

} // verus!
