//! Responses of the device: the module identity frame and the measurement
//! frame, and the fault byte that a measurement frame carries.

pub mod device_error;
pub mod measurement;
pub mod module;
