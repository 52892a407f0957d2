use vstd::prelude::*;

verus! {

/// USB vendor ID shared by every TranceVibrator (originals, Drmn TranceVibe,
/// Harnett USBMC-01).
pub const VID: u16 = 0x0b49;

/// USB product ID shared by every TranceVibrator.
pub const PID: u16 = 0x064f;

/// The vendor request that sets the motor speed.
pub const SET_SPEED_REQUEST: u8 = 1;

/// The index field of the speed request.
pub const SET_SPEED_INDEX: u16 = 0;

/// How long a speed request may block, in milliseconds.
pub const SET_SPEED_TIMEOUT_MS: u64 = 1000;

/// Direction of a control transfer, bit 7 of `bmRequestType`.
#[derive(Clone, Copy, Debug, PartialEq, Eq, Structural)]
pub enum Direction {
    /// Device to host.
    In,
    /// Host to device.
    Out,
}

/// Type of a control request, bits 5 and 6 of `bmRequestType`.
#[derive(Clone, Copy, Debug, PartialEq, Eq, Structural)]
pub enum RequestKind {
    Standard,
    Class,
    Vendor,
    Reserved,
}

/// Recipient of a control request, bits 0 to 4 of `bmRequestType`.
#[derive(Clone, Copy, Debug, PartialEq, Eq, Structural)]
pub enum Recipient {
    Device,
    Interface,
    Endpoint,
    Other,
}

pub open spec fn direction_bits(d: Direction) -> u8 {
    match d {
        Direction::In => 0x80,
        Direction::Out => 0x00,
    }
}

pub open spec fn kind_bits(k: RequestKind) -> u8 {
    match k {
        RequestKind::Standard => 0x00,
        RequestKind::Class => 0x20,
        RequestKind::Vendor => 0x40,
        RequestKind::Reserved => 0x60,
    }
}

pub open spec fn recipient_bits(r: Recipient) -> u8 {
    match r {
        Recipient::Device => 0x00,
        Recipient::Interface => 0x01,
        Recipient::Endpoint => 0x02,
        Recipient::Other => 0x03,
    }
}

/// The `bmRequestType` byte of a control transfer.
pub open spec fn request_type_byte(d: Direction, k: RequestKind, r: Recipient) -> u8 {
    direction_bits(d) | kind_bits(k) | recipient_bits(r)
}

/// Builds the `bmRequestType` byte of a control transfer from its three parts.
pub fn request_type(d: Direction, k: RequestKind, r: Recipient) -> (b: u8)
    ensures
        b == request_type_byte(d, k, r),
{
    let dir: u8 = match d {
        Direction::In => 0x80,
        Direction::Out => 0x00,
    };
    let kind: u8 = match k {
        RequestKind::Standard => 0x00,
        RequestKind::Class => 0x20,
        RequestKind::Vendor => 0x40,
        RequestKind::Reserved => 0x60,
    };
    let rec: u8 = match r {
        Recipient::Device => 0x00,
        Recipient::Interface => 0x01,
        Recipient::Endpoint => 0x02,
        Recipient::Other => 0x03,
    };
    dir | kind | rec
}

/// One control transfer for the host stack to carry out.
#[derive(Clone, Debug)]
pub struct ControlTransfer {
    pub request_type: u8,
    pub request: u8,
    pub value: u16,
    pub index: u16,
    /// The data stage sent to the device.
    pub data: Vec<u8>,
    pub timeout_ms: u64,
}

/// What a speed command looks like on the wire: one host-to-device vendor
/// request addressed to the interface, with the speed in the value field, no
/// data stage, and a one second timeout.
pub open spec fn is_speed_command(t: ControlTransfer, speed: u8) -> bool {
    &&& t.request_type == request_type_byte(Direction::Out, RequestKind::Vendor, Recipient::Interface)
    &&& t.request == SET_SPEED_REQUEST
    &&& t.value == speed as u16
    &&& t.index == SET_SPEED_INDEX
    &&& t.data@.len() == 0
    &&& t.timeout_ms == SET_SPEED_TIMEOUT_MS
}

/// The control transfer that sets the motor speed; 0 stops the motor and
/// 255 runs it at full power.
pub fn speed_command(speed: u8) -> (t: ControlTransfer)
    ensures
        is_speed_command(t, speed),
        t.request_type == 0x41,
{
    let request_type = request_type(Direction::Out, RequestKind::Vendor, Recipient::Interface);
    assert(0x00u8 | 0x40u8 | 0x01u8 == 0x41u8) by (bit_vector);
    ControlTransfer {
        request_type,
        request: SET_SPEED_REQUEST,
        value: speed as u16,
        index: SET_SPEED_INDEX,
        data: Vec::new(),
        timeout_ms: SET_SPEED_TIMEOUT_MS,
    }
}

} // verus!
