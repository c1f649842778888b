//! The ways in which a response frame can be refused.

use vstd::prelude::*;
use crate::response::device_error::DeviceErrorCode;

verus! {

/// Why a response frame was not decoded.
///
/// Checksum and header failures are transient and worth a retry; a device
/// fault is a diagnosis of the sensor itself.
#[derive(Debug, Clone, Copy, PartialEq, Eq, Structural)]
pub enum Error {
    /// The first four bytes are not the magic number followed by the length
    /// that a frame of this size declares.
    InvalidHeader,
    /// The trailing checksum field (`expected`) differs from the checksum
    /// computed over the bytes before it (`actual`).
    Checksum { expected: u16, actual: u16 },
    /// The frame is well formed, but the sensor reports a fault.
    Device(DeviceErrorCode),
}

} // verus!
