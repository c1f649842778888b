//! Commands that the host sends to the device.
//!
//! Each command is a frame of seven bytes, big-endian:
//!
//! | 2 bytes      | 1 byte  | 2 bytes | 2 bytes  |
//! |--------------|---------|---------|----------|
//! | magic number | command | mode    | checksum |
//!
//! The checksum covers the five bytes before it. Only the low byte of the
//! mode is ever used. The two wire variants of the device share this shape
//! and differ in the commands they accept, so each has a command set of its
//! own: what one variant does not define cannot be built for it.

use vstd::prelude::*;
use crate::checksum::{checksum, checksum_of};
use crate::frame::{MAGIC_0, MAGIC_1};
use crate::wire::{be_bytes_of, be_u16, write_u16};

pub mod i2c;
pub mod uart;

verus! {

/// Length of a command frame.
pub const COMMAND_LEN: usize = 7;

/// Switches the device between idle and measurement mode; on I2C the same
/// command, with another mode, resets the device.
pub const TOGGLE_DEVICE_MODE: u8 = 0xE4;

/// Mode of `TOGGLE_DEVICE_MODE` that powers the fan on: the mode in which
/// the device starts.
pub const MEASUREMENT_MODE: u8 = 0x01;

/// Mode of `TOGGLE_DEVICE_MODE` that powers the fan down.
pub const IDLE_MODE: u8 = 0x00;

/// Asks for the module's type, serial number and firmware version.
pub const READ_MODULE_ID: u8 = 0xE9;

/// The five bytes of a command that its checksum covers.
pub open spec fn command_payload(opcode: u8, mode: u8) -> Seq<u8> {
    seq![MAGIC_0, MAGIC_1, opcode, 0u8, mode]
}

/// The frame of the command `opcode` with the low mode byte `mode`.
pub open spec fn command_frame(opcode: u8, mode: u8) -> Seq<u8> {
    command_payload(opcode, mode) + be_bytes_of(checksum_of(command_payload(opcode, mode)))
}

/// The checksum of `payload` as the two bytes that close a frame.
pub fn calculate_checksum(payload: &[u8]) -> (bytes: [u8; 2])
    ensures
        bytes@ == be_bytes_of(checksum_of(payload@)),
        be_u16(bytes@[0], bytes@[1]) == checksum_of(payload@),
{
    write_u16(checksum(payload))
}

/// Builds the frame of the command `opcode` with the low mode byte `mode`.
/// Only the command sets call this, so that no frame is built for a command
/// that a variant does not define.
pub(crate) fn encode(opcode: u8, mode: u8) -> (frame: [u8; 7])
    ensures
        frame@ == command_frame(opcode, mode),
        be_u16(frame@[5], frame@[6]) == checksum_of(frame@.subrange(0, 5)),
{
    let payload: [u8; 5] = [MAGIC_0, MAGIC_1, opcode, 0, mode];
    assert(payload@ =~= command_payload(opcode, mode));
    let sum: [u8; 2] = calculate_checksum(payload.as_slice());
    let frame: [u8; 7] = [MAGIC_0, MAGIC_1, opcode, 0, mode, sum[0], sum[1]];
    assert(frame@ =~= command_frame(opcode, mode));
    proof {
        lemma_command_frame_checksum(opcode, mode);
    }
    frame
}

/// A command frame carries the checksum of its own first five bytes, and
/// nothing but magic number, command and mode before it.
pub proof fn lemma_command_frame_checksum(opcode: u8, mode: u8)
    ensures
        command_frame(opcode, mode).len() == COMMAND_LEN,
        command_frame(opcode, mode).subrange(0, 5) == command_payload(opcode, mode),
        command_frame(opcode, mode).subrange(5, 7) == be_bytes_of(
            checksum_of(command_frame(opcode, mode).subrange(0, 5)),
        ),
        be_u16(command_frame(opcode, mode)[5], command_frame(opcode, mode)[6]) == checksum_of(
            command_frame(opcode, mode).subrange(0, 5),
        ),
{
    let frame = command_frame(opcode, mode);
    let payload = command_payload(opcode, mode);
    assert(frame.subrange(0, 5) =~= payload);
    assert(frame.subrange(5, 7) =~= be_bytes_of(checksum_of(payload)));
}

} // verus!
