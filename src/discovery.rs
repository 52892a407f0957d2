use vstd::prelude::*;

use crate::error::{EnumerationError, OpenError, UsbError};
use crate::protocol::{PID, VID};

verus! {

/// The identifying part of a USB device descriptor.
#[derive(Clone, Copy, Debug, PartialEq, Eq, Structural)]
pub struct DeviceDescriptor {
    pub vendor_id: u16,
    pub product_id: u16,
}

/// One device in the host stack's list of attached devices.
#[derive(Clone, Copy, Debug, PartialEq, Eq, Structural)]
pub struct DeviceEntry {
    /// The device's descriptor, or `None` where reading it failed.
    pub descriptor: Option<DeviceDescriptor>,
    pub bus_number: u8,
    pub address: u8,
}

/// The outcome of polling the host stack for its attached devices.
#[derive(Debug)]
pub enum DeviceScan {
    /// The USB enumeration context could not be created.
    ContextFailed(UsbError),
    /// The context was created, but the device list could not be read.
    ListFailed(UsbError),
    /// The attached devices, in the host stack's order.
    Listed(Vec<DeviceEntry>),
}

/// A TranceVibrator that was found but not opened, known by where it is
/// attached: all of them share one vendor/product pair and carry no serial
/// number.
#[derive(Clone, Copy, Debug, PartialEq, Eq, Structural)]
pub struct TranceVibeDeviceInfo {
    /// USB bus number of the device.
    pub bus_number: u8,
    /// USB address of the device on its bus.
    pub address: u8,
}

/// The entry's descriptor was read and names a TranceVibrator.
pub open spec fn is_trancevibe(e: DeviceEntry) -> bool {
    &&& e.descriptor is Some
    &&& e.descriptor->0.vendor_id == VID
    &&& e.descriptor->0.product_id == PID
}

/// Where the entry's device is attached.
pub open spec fn identity_of(e: DeviceEntry) -> TranceVibeDeviceInfo {
    TranceVibeDeviceInfo { bus_number: e.bus_number, address: e.address }
}

/// The entries of a device list that are TranceVibrators, in list order.
pub open spec fn trancevibe_entries(entries: Seq<DeviceEntry>) -> Seq<DeviceEntry> {
    entries.filter(|e: DeviceEntry| is_trancevibe(e))
}

/// The TranceVibrators of a device list, in list order; devices whose
/// descriptor could not be read are left out.
pub open spec fn trancevibes_in(entries: Seq<DeviceEntry>) -> Seq<TranceVibeDeviceInfo> {
    trancevibe_entries(entries).map_values(|e: DeviceEntry| identity_of(e))
}

/// What enumeration returns for a scan of the host stack.
pub open spec fn enumeration_result(scan: DeviceScan) -> Result<Seq<TranceVibeDeviceInfo>, EnumerationError> {
    match scan {
        DeviceScan::ContextFailed(e) => Err(EnumerationError::ContextInitFailed(e)),
        DeviceScan::ListFailed(e) => Err(EnumerationError::EnumerationFailed(e)),
        DeviceScan::Listed(entries) => Ok(trancevibes_in(entries@)),
    }
}

/// The entry at `i` is the TranceVibrator attached at `info`.
pub open spec fn locates(entries: Seq<DeviceEntry>, info: TranceVibeDeviceInfo, i: int) -> bool {
    &&& 0 <= i < entries.len()
    &&& is_trancevibe(entries[i])
    &&& identity_of(entries[i]) == info
}

/// `i` is the first entry that is the TranceVibrator attached at `info`.
pub open spec fn first_located(entries: Seq<DeviceEntry>, info: TranceVibeDeviceInfo, i: int) -> bool {
    &&& locates(entries, info, i)
    &&& forall|j: int| 0 <= j < i ==> !locates(entries, info, j)
}

/// Position in the device list of the TranceVibrator attached at `info`, if
/// it is there.
pub open spec fn position_of(entries: Seq<DeviceEntry>, info: TranceVibeDeviceInfo) -> Option<int> {
    if exists|i: int| first_located(entries, info, i) {
        Some(choose|i: int| first_located(entries, info, i))
    } else {
        None
    }
}

/// The first position that holds the TranceVibrator attached at `info` is its
/// position in the device list.
pub proof fn lemma_first_located_is_position(
    entries: Seq<DeviceEntry>,
    info: TranceVibeDeviceInfo,
    i: int,
)
    requires
        first_located(entries, info, i),
    ensures
        position_of(entries, info) == Some(i),
{
    let k = choose|k: int| first_located(entries, info, k);
    assert(!(k < i));
    assert(!(k > i));
}

/// What opening the TranceVibrator attached at `info` decides for a fresh
/// scan of the host stack: the position of the device to open, or why there
/// is none.
pub open spec fn open_target(info: TranceVibeDeviceInfo, scan: DeviceScan) -> Result<int, OpenError> {
    match scan {
        DeviceScan::ContextFailed(e) => Err(OpenError::ContextInitFailed(e)),
        DeviceScan::ListFailed(e) => Err(OpenError::EnumerationFailed(e)),
        DeviceScan::Listed(entries) => match position_of(entries@, info) {
            Some(i) => Ok(i),
            None => Err(OpenError::DeviceNotFound),
        },
    }
}

/// The TranceVibrators of a device list, in list order. A device whose
/// descriptor could not be read is skipped: one faulty device does not stop
/// the others from being found.
pub fn trancevibes(entries: &Vec<DeviceEntry>) -> (found: Vec<TranceVibeDeviceInfo>)
    ensures
        found@ == trancevibes_in(entries@),
{
    let mut found: Vec<TranceVibeDeviceInfo> = Vec::new();
    let mut i: usize = 0;
    while i < entries.len()
        invariant
            i <= entries@.len(),
            found@ == trancevibes_in(entries@.take(i as int)),
        decreases entries@.len() - i,
    {
        let e = entries[i];
        proof {
            let prefix = entries@.take(i as int);
            let next = entries@.take(i + 1);
            assert(next.drop_last() =~= prefix);
            assert(next.last() == e);
            reveal(Seq::filter);
            assert(trancevibe_entries(next) == if is_trancevibe(e) {
                trancevibe_entries(prefix).push(e)
            } else {
                trancevibe_entries(prefix)
            });
            if is_trancevibe(e) {
                assert(trancevibes_in(next) =~= trancevibes_in(prefix).push(identity_of(e)));
            }
        }
        let keep = match e.descriptor {
            Some(d) => d.vendor_id == VID && d.product_id == PID,
            None => false,
        };
        if keep {
            found.push(TranceVibeDeviceInfo::new(e.bus_number, e.address));
        }
        i = i + 1;
    }
    assert(entries@.take(entries@.len() as int) =~= entries@);
    found
}

/// Lists the attached TranceVibrators from a scan of the host stack.
///
/// A failure to create the enumeration context or to read the device list is
/// returned; a device whose descriptor cannot be read is skipped.
pub fn get_devices(scan: &DeviceScan) -> (r: Result<Vec<TranceVibeDeviceInfo>, EnumerationError>)
    ensures
        match (r, enumeration_result(*scan)) {
            (Ok(found), Ok(expected)) => found@ == expected,
            (Err(e), Err(expected)) => e == expected,
            _ => false,
        },
{
    match scan {
        DeviceScan::ContextFailed(e) => Err(EnumerationError::ContextInitFailed(*e)),
        DeviceScan::ListFailed(e) => Err(EnumerationError::EnumerationFailed(*e)),
        DeviceScan::Listed(entries) => Ok(trancevibes(entries)),
    }
}

impl TranceVibeDeviceInfo {
    /// The handle for the TranceVibrator attached at `bus_number` and
    /// `address`; it can be opened later.
    pub fn new(bus_number: u8, address: u8) -> (r: TranceVibeDeviceInfo)
        ensures
            r.bus_number == bus_number,
            r.address == address,
    {
        TranceVibeDeviceInfo { bus_number, address }
    }

    /// Finds this TranceVibrator again in a fresh scan of the host stack and
    /// returns its position in the device list, ready to be opened.
    ///
    /// A device whose descriptor cannot be read is skipped. Where no
    /// TranceVibrator is attached at this bus number and address any more,
    /// the error is `DeviceNotFound`, which a caller can recover from by
    /// enumerating again.
    pub fn open(&self, scan: &DeviceScan) -> (r: Result<usize, OpenError>)
        ensures
            match r {
                Ok(i) => open_target(*self, *scan) == Ok::<int, OpenError>(i as int),
                Err(e) => open_target(*self, *scan) == Err::<int, OpenError>(e),
            },
    {
        match scan {
            DeviceScan::ContextFailed(e) => Err(OpenError::ContextInitFailed(*e)),
            DeviceScan::ListFailed(e) => Err(OpenError::EnumerationFailed(*e)),
            DeviceScan::Listed(entries) => {
                let mut i: usize = 0;
                while i < entries.len()
                    invariant
                        i <= entries@.len(),
                        *scan == DeviceScan::Listed(*entries),
                        forall|j: int| 0 <= j < i ==> !locates(entries@, *self, j),
                    decreases entries@.len() - i,
                {
                    let e = entries[i];
                    let found = match e.descriptor {
                        Some(d) => d.vendor_id == VID && d.product_id == PID && e.bus_number
                            == self.bus_number && e.address == self.address,
                        None => false,
                    };
                    if found {
                        proof {
                            lemma_first_located_is_position(entries@, *self, i as int);
                        }
                        return Ok(i);
                    }
                    i = i + 1;
                }
                Err(OpenError::DeviceNotFound)
            },
        }
    }
}

} // verus!
