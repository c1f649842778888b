//! Wire protocol codec for the APC1 air-quality sensor module.
//!
//! The device talks over I2C or UART in frames of fixed length, big-endian,
//! each closed by the sum of its bytes. This crate builds the command frames
//! and decodes the two responses, the module identity and the measurement.
//! It is pure: it owns no bus, does not wait and does not retry. What a host
//! has to do in which order is decided in `session`, for the caller to
//! perform.
//!
//! - `checksum`: the byte sum modulo 2^16, and what it can and cannot detect
//! - `wire`: big-endian fields
//! - `frame`: magic number, declared length and checksum of a response
//! - `request`: the command sets of the two wire variants
//! - `response`: module identity, measurement and device fault byte
//! - `session`: the steps of a session with the device
//! - `record`: the row that a log keeps of a measurement

pub mod checksum;
pub mod error;
pub mod frame;
pub mod record;
pub mod request;
pub mod response;
pub mod session;
pub mod wire;

pub use error::Error;
pub use request::{i2c, uart};
pub use response::device_error::DeviceErrorCode;
pub use response::measurement::Measurement;
pub use response::module::Module;
