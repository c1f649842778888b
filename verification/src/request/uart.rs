//! The command set of the UART variant of the device.
//!
//! The device talks at 9600 baud, with 8 data bits, no parity and 1 stop
//! bit. It has no reset command.

use vstd::prelude::*;
use crate::checksum::checksum_of;
use crate::request::{
    command_frame, encode, IDLE_MODE, MEASUREMENT_MODE, READ_MODULE_ID, TOGGLE_DEVICE_MODE,
};
use crate::wire::be_u16;

verus! {

/// Baud rate of the serial line.
pub const BAUD_RATE: u16 = 9600;

/// Data bits per character.
pub const DATA_BITS: u8 = 8;

/// Stop bits per character.
pub const STOP_BIT: u8 = 1;

/// Switches between measurements on request and a measurement every second.
pub const TOGGLE_MEASUREMENT_MODE: u8 = 0xE1;

/// Mode of `TOGGLE_MEASUREMENT_MODE` in which the device sends a
/// measurement every second.
pub const ACTIVE_MEASUREMENT_MODE: u8 = 0x01;

/// Mode of `TOGGLE_MEASUREMENT_MODE` in which the device sends a
/// measurement when asked. The device starts in this mode.
pub const PASSIVE_MEASUREMENT_MODE: u8 = 0x00;

/// Asks for one measurement.
pub const REQUEST_MEASUREMENT: u8 = 0xE2;

/// The commands that the UART variant accepts.
#[derive(Debug, Clone, Copy, PartialEq, Eq, Structural)]
pub enum Command {
    /// Has the device send a measurement every second.
    SetActiveMeasurement,
    /// Has the device send measurements on request only. The device starts
    /// in this mode.
    SetPassiveMeasurement,
    /// Asks for one measurement, while measurements come on request only.
    RequestMeasurement,
    /// Powers the fan down, which brings the current from about 75 mA to
    /// about 9 mA.
    SetIdleMode,
    /// Powers the fan on. The device starts in this mode.
    SetActiveMode,
    /// Asks for the module's type, serial number and firmware version.
    ReadModuleId,
}

impl Command {
    /// The command byte of this command.
    pub open spec fn opcode(self) -> u8 {
        match self {
            Command::SetActiveMeasurement => TOGGLE_MEASUREMENT_MODE,
            Command::SetPassiveMeasurement => TOGGLE_MEASUREMENT_MODE,
            Command::RequestMeasurement => REQUEST_MEASUREMENT,
            Command::SetIdleMode => TOGGLE_DEVICE_MODE,
            Command::SetActiveMode => TOGGLE_DEVICE_MODE,
            Command::ReadModuleId => READ_MODULE_ID,
        }
    }

    /// The low mode byte of this command.
    pub open spec fn mode(self) -> u8 {
        match self {
            Command::SetActiveMeasurement => ACTIVE_MEASUREMENT_MODE,
            Command::SetPassiveMeasurement => PASSIVE_MEASUREMENT_MODE,
            Command::RequestMeasurement => 0,
            Command::SetIdleMode => IDLE_MODE,
            Command::SetActiveMode => MEASUREMENT_MODE,
            Command::ReadModuleId => 0,
        }
    }

    /// The frame to write to the device for this command.
    pub fn to_bytes(&self) -> (frame: [u8; 7])
        ensures
            frame@ == command_frame(self.opcode(), self.mode()),
            be_u16(frame@[5], frame@[6]) == checksum_of(frame@.subrange(0, 5)),
    {
        match self {
            Command::SetActiveMeasurement => encode(
                TOGGLE_MEASUREMENT_MODE,
                ACTIVE_MEASUREMENT_MODE,
            ),
            Command::SetPassiveMeasurement => encode(
                TOGGLE_MEASUREMENT_MODE,
                PASSIVE_MEASUREMENT_MODE,
            ),
            Command::RequestMeasurement => encode(REQUEST_MEASUREMENT, 0),
            Command::SetIdleMode => encode(TOGGLE_DEVICE_MODE, IDLE_MODE),
            Command::SetActiveMode => encode(TOGGLE_DEVICE_MODE, MEASUREMENT_MODE),
            Command::ReadModuleId => encode(READ_MODULE_ID, 0),
        }
    }
}

/// No two commands of the UART variant share a frame: the device can tell
/// from the frame which command was meant.
pub proof fn lemma_frames_are_distinct(first: Command, second: Command)
    requires
        first != second,
    ensures
        command_frame(first.opcode(), first.mode()) != command_frame(
            second.opcode(),
            second.mode(),
        ),
{
    let a = command_frame(first.opcode(), first.mode());
    let b = command_frame(second.opcode(), second.mode());
    assert(a[2] == first.opcode() && a[4] == first.mode());
    assert(b[2] == second.opcode() && b[4] == second.mode());
}

} // verus!
