use vstd::prelude::*;

use crate::discovery::TranceVibeDeviceInfo;
use crate::error::{ControlError, OpenError, UsbError};
use crate::protocol::{is_speed_command, speed_command, ControlTransfer};

verus! {

/// An open TranceVibrator, ready to take speed commands.
///
/// It is made only from a `TranceVibeDeviceInfo` whose device the host stack
/// opened; the live handle itself stays with the caller, which releases it
/// when the session ends.
#[derive(Debug)]
pub struct TranceVibeDevice {
    bus_number: u8,
    address: u8,
}

impl TranceVibeDevice {
    /// Where the open device is attached.
    pub closed spec fn identity(self) -> TranceVibeDeviceInfo {
        TranceVibeDeviceInfo { bus_number: self.bus_number, address: self.address }
    }

    /// USB bus number of the open device.
    pub fn bus_number(&self) -> (b: u8)
        ensures
            b == self.identity().bus_number,
    {
        self.bus_number
    }

    /// USB address of the open device.
    pub fn address(&self) -> (a: u8)
        ensures
            a == self.identity().address,
    {
        self.address
    }

    /// The control transfer that sets the running speed, from 0 (off) to 255
    /// (full power). It is one vendor request with the speed in its value
    /// field and no data stage; carrying it out blocks for at most one
    /// second.
    pub fn set(&mut self, speed: u8) -> (t: ControlTransfer)
        ensures
            is_speed_command(t, speed),
            final(self).identity() == old(self).identity(),
    {
        speed_command(speed)
    }

    /// The result of a speed command, given what the host stack reported for
    /// its transfer: the number of bytes written, or the transfer's failure.
    /// Nothing is retried.
    pub fn written(&self, outcome: Result<usize, UsbError>) -> (r: Result<usize, ControlError>)
        ensures
            match outcome {
                Ok(n) => r == Ok::<usize, ControlError>(n),
                Err(e) => r == Err::<usize, ControlError>(ControlError::TransferFailed(e)),
            },
    {
        match outcome {
            Ok(n) => Ok(n),
            Err(e) => Err(ControlError::TransferFailed(e)),
        }
    }
}

impl TranceVibeDeviceInfo {
    /// The session for this device, given what the host stack reported when
    /// asked to open it.
    pub fn session(&self, outcome: Result<(), UsbError>) -> (r: Result<TranceVibeDevice, OpenError>)
        ensures
            match outcome {
                Ok(_) => r matches Ok(d) && d.identity() == *self,
                Err(e) => r == Err::<TranceVibeDevice, OpenError>(OpenError::OpenFailed(e)),
            },
    {
        match outcome {
            Ok(_) => Ok(TranceVibeDevice { bus_number: self.bus_number, address: self.address }),
            Err(e) => Err(OpenError::OpenFailed(e)),
        }
    }
}

} // verus!
