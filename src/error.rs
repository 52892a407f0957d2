use vstd::prelude::*;

verus! {

/// A failure reported by the USB host stack.
#[derive(Clone, Copy, Debug, PartialEq, Eq, Structural)]
pub enum UsbError {
    Io,
    InvalidParam,
    Access,
    NoDevice,
    NotFound,
    Busy,
    Timeout,
    Overflow,
    Pipe,
    Interrupted,
    NoMem,
    NotSupported,
    Other,
}

/// Why enumerating the attached TranceVibrators failed.
#[derive(Clone, Copy, Debug, PartialEq, Eq, Structural)]
pub enum EnumerationError {
    /// The USB enumeration context could not be created.
    ContextInitFailed(UsbError),
    /// The list of attached devices could not be read.
    EnumerationFailed(UsbError),
}

/// Why opening a discovered TranceVibrator failed.
#[derive(Clone, Copy, Debug, PartialEq, Eq, Structural)]
pub enum OpenError {
    /// The USB enumeration context could not be created.
    ContextInitFailed(UsbError),
    /// The list of attached devices could not be read.
    EnumerationFailed(UsbError),
    /// No attached TranceVibrator has the bus number and address asked for:
    /// it was unplugged or moved since it was enumerated.
    DeviceNotFound,
    /// The device was found, but the host stack refused to open it.
    OpenFailed(UsbError),
}

/// Why a control transfer to an open TranceVibrator failed.
#[derive(Clone, Copy, Debug, PartialEq, Eq, Structural)]
pub enum ControlError {
    /// The transfer timed out, stalled, or the device went away.
    TransferFailed(UsbError),
}

} // verus!
