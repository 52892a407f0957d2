use libtrancevibe::protocol::{request_type, speed_command};
use libtrancevibe::{
    ControlError, DeviceDescriptor, DeviceEntry, DeviceScan, Direction, OpenError, Recipient,
    RequestKind, TranceVibeDeviceInfo, UsbError, get_devices,
};

fn open_at(bus_number: u8, address: u8) -> libtrancevibe::TranceVibeDevice {
    TranceVibeDeviceInfo { bus_number, address }.session(Ok(())).unwrap()
}

#[test]
fn scenario_enumerate_open_and_set() {
    let scan = DeviceScan::Listed(vec![DeviceEntry {
        descriptor: Some(DeviceDescriptor { vendor_id: 0x0B49, product_id: 0x064F }),
        bus_number: 1,
        address: 5,
    }]);
    let found = get_devices(&scan).unwrap();
    assert_eq!(found.len(), 1);
    assert_eq!((found[0].bus_number, found[0].address), (1, 5));
    assert_eq!(found[0].open(&scan), Ok(0));
    let mut device = found[0].session(Ok(())).unwrap();
    assert_eq!((device.bus_number(), device.address()), (1, 5));

    let full = device.set(255);
    assert_eq!(full.value, 255);
    assert_eq!(full.request, 1);
    assert_eq!(device.written(Ok(0)), Ok(0));

    let stop = device.set(0);
    assert_eq!(stop.value, 0);
    assert_eq!(device.written(Ok(0)), Ok(0));
}

#[test]
fn every_speed_is_one_vendor_request() {
    let mut device = open_at(2, 9);
    for speed in 0..=255u8 {
        let t = device.set(speed);
        assert_eq!(t.request_type, 0x41);
        assert_eq!(t.request, 1);
        assert_eq!(t.value, speed as u16);
        assert_eq!(t.index, 0);
        assert!(t.data.is_empty());
        assert_eq!(t.timeout_ms, 1000);
    }
    assert_eq!((device.bus_number(), device.address()), (2, 9));
}

#[test]
fn timed_out_transfer_is_transfer_error() {
    let mut device = open_at(1, 5);
    let t = device.set(128);
    assert_eq!(t.timeout_ms, 1000);
    assert_eq!(device.written(Err(UsbError::Timeout)), Err(ControlError::TransferFailed(UsbError::Timeout)));
    assert_eq!(device.written(Err(UsbError::NoDevice)), Err(ControlError::TransferFailed(UsbError::NoDevice)));
    assert_eq!(device.written(Err(UsbError::Pipe)), Err(ControlError::TransferFailed(UsbError::Pipe)));
}

#[test]
fn bytes_written_are_passed_back() {
    let device = open_at(1, 5);
    assert_eq!(device.written(Ok(3)), Ok(3));
}

#[test]
fn failed_low_level_open_is_open_error() {
    let handle = TranceVibeDeviceInfo { bus_number: 3, address: 4 };
    let r = handle.session(Err(UsbError::Busy));
    assert!(matches!(r, Err(OpenError::OpenFailed(UsbError::Busy))));
    let r = handle.session(Err(UsbError::Access));
    assert!(matches!(r, Err(OpenError::OpenFailed(UsbError::Access))));
}

#[test]
fn request_type_byte_layout() {
    assert_eq!(request_type(Direction::Out, RequestKind::Vendor, Recipient::Interface), 0x41);
    assert_eq!(request_type(Direction::In, RequestKind::Standard, Recipient::Device), 0x80);
    assert_eq!(request_type(Direction::In, RequestKind::Class, Recipient::Endpoint), 0xA2);
    assert_eq!(request_type(Direction::Out, RequestKind::Reserved, Recipient::Other), 0x63);
}

#[test]
fn speed_command_fields() {
    let t = speed_command(7);
    assert_eq!(
        (t.request_type, t.request, t.value, t.index, t.data.len(), t.timeout_ms),
        (0x41, 1, 7, 0, 0, 1000)
    );
}
