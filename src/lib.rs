//! Discovery and speed control for TranceVibrator USB vibration actuators.
//!
//! The USB host stack stays outside this library: the caller polls it and
//! hands the results in as plain values (`DeviceScan`, the outcome of an open,
//! the outcome of a control transfer). The library decides which devices are
//! TranceVibrators, which one to open, and what control transfer sets a speed.
pub mod discovery;
pub mod error;
pub mod laws;
pub mod protocol;
pub mod session;

pub use discovery::{get_devices, DeviceDescriptor, DeviceEntry, DeviceScan, TranceVibeDeviceInfo};
pub use error::{ControlError, EnumerationError, OpenError, UsbError};
pub use protocol::{ControlTransfer, Direction, Recipient, RequestKind};
pub use session::TranceVibeDevice;
