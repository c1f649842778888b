//! The command set of the I2C variant of the device.
//!
//! Commands are written to the registers `0x40` through `0x46`; the module
//! identity can then be read from `0x47` through `0x5D`.

use vstd::prelude::*;
use crate::checksum::checksum_of;
use crate::request::{
    command_frame, encode, IDLE_MODE, MEASUREMENT_MODE, READ_MODULE_ID, TOGGLE_DEVICE_MODE,
};
use crate::wire::be_u16;

verus! {

/// The 7-bit I2C address of the device.
pub const DEVICE_ADDR: u8 = 0x12;

/// I2C clock frequency in kbit/s.
pub const SCLK_FREQUENCY: u8 = 100;

/// The register that takes the first byte of a command.
pub const COMMAND_BASE_ADDR: u8 = 0x40;

/// The register that holds the first byte of the module identity.
pub const MODULE_BASE_ADDR: u8 = 0x47;

/// Mode of `TOGGLE_DEVICE_MODE` that restarts the device. Only the I2C
/// variant has it.
pub const RESET_DEVICE: u8 = 0x0F;

/// The register that takes the byte of index `index` of a command.
pub open spec fn command_register(index: int) -> u8
    recommends
        0 <= index < 7,
{
    (COMMAND_BASE_ADDR + index) as u8
}

/// The register that holds the byte of index `index` of the module
/// identity.
pub open spec fn module_register(index: int) -> u8
    recommends
        0 <= index < 23,
{
    (MODULE_BASE_ADDR + index) as u8
}

/// The registers to read for the module identity, in the order of the bytes
/// of its frame: `0x47` through `0x5D`.
pub fn module_registers() -> (registers: [u8; 23])
    ensures
        forall|i: int| 0 <= i < 23 ==> #[trigger] registers@[i] == module_register(i),
        registers@[0] == 0x47,
        registers@[22] == 0x5D,
{
    let mut registers: [u8; 23] = [0; 23];
    let mut i: usize = 0;
    while i < 23
        invariant
            i <= 23,
            forall|k: int| 0 <= k < i ==> #[trigger] registers@[k] == module_register(k),
        decreases 23 - i,
    {
        registers[i] = MODULE_BASE_ADDR + i as u8;
        i += 1;
    }
    registers
}

/// The commands that the I2C variant accepts.
#[derive(Debug, Clone, Copy, PartialEq, Eq, Structural)]
pub enum Command {
    /// Powers the fan down, which brings the current from about 75 mA to
    /// about 9 mA.
    SetIdleMode,
    /// Powers the fan on. The device starts in this mode.
    SetActiveMode,
    /// Restarts the device with its power-on defaults.
    Reset,
    /// Asks for the module's type, serial number and firmware version.
    ReadModuleId,
}

impl Command {
    /// The command byte of this command.
    pub open spec fn opcode(self) -> u8 {
        match self {
            Command::SetIdleMode => TOGGLE_DEVICE_MODE,
            Command::SetActiveMode => TOGGLE_DEVICE_MODE,
            Command::Reset => TOGGLE_DEVICE_MODE,
            Command::ReadModuleId => READ_MODULE_ID,
        }
    }

    /// The low mode byte of this command.
    pub open spec fn mode(self) -> u8 {
        match self {
            Command::SetIdleMode => IDLE_MODE,
            Command::SetActiveMode => MEASUREMENT_MODE,
            Command::Reset => RESET_DEVICE,
            Command::ReadModuleId => 0,
        }
    }

    /// The register writes that send this command: the bytes of its frame
    /// in order, each with the register that takes it.
    pub fn register_writes(&self) -> (writes: [(u8, u8); 7])
        ensures
            forall|i: int|
                0 <= i < 7 ==> #[trigger] writes@[i] == (
                    command_register(i),
                    command_frame(self.opcode(), self.mode())[i],
                ),
    {
        let frame: [u8; 7] = self.to_bytes();
        [
            (COMMAND_BASE_ADDR, frame[0]),
            (COMMAND_BASE_ADDR + 1, frame[1]),
            (COMMAND_BASE_ADDR + 2, frame[2]),
            (COMMAND_BASE_ADDR + 3, frame[3]),
            (COMMAND_BASE_ADDR + 4, frame[4]),
            (COMMAND_BASE_ADDR + 5, frame[5]),
            (COMMAND_BASE_ADDR + 6, frame[6]),
        ]
    }

    /// The frame to write to the device for this command.
    pub fn to_bytes(&self) -> (frame: [u8; 7])
        ensures
            frame@ == command_frame(self.opcode(), self.mode()),
            be_u16(frame@[5], frame@[6]) == checksum_of(frame@.subrange(0, 5)),
    {
        match self {
            Command::SetIdleMode => encode(TOGGLE_DEVICE_MODE, IDLE_MODE),
            Command::SetActiveMode => encode(TOGGLE_DEVICE_MODE, MEASUREMENT_MODE),
            Command::Reset => encode(TOGGLE_DEVICE_MODE, RESET_DEVICE),
            Command::ReadModuleId => encode(READ_MODULE_ID, 0),
        }
    }
}

/// No two commands of the I2C variant share a frame: the device can tell
/// from the frame which command was meant.
pub proof fn lemma_frames_are_distinct(first: Command, second: Command)
    requires
        first != second,
    ensures
        command_frame(first.opcode(), first.mode()) != command_frame(
            second.opcode(),
            second.mode(),
        ),
{
    let a = command_frame(first.opcode(), first.mode());
    let b = command_frame(second.opcode(), second.mode());
    assert(a[2] == first.opcode() && a[4] == first.mode());
    assert(b[2] == second.opcode() && b[4] == second.mode());
}

} // verus!
