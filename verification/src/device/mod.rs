//! The device: how it is found, and what it is asked when it is opened,
//! started, stopped and closed.
//!
//! Nothing here touches the bus. A procedure is a row of [`Request`]s for
//! the caller to carry out in order; where the next request depends on what
//! the device answered, the procedure is resumed with the answer.
use vstd::prelude::*;

pub mod closed;
pub mod opened;
pub mod request;

pub use closed::Closed;
pub use opened::Opened;
pub use request::{Recipient, Request, RequestView};

verus! {

/// The vendor: Microsoft.
pub const VENDOR_ID: u16 = 0x045E;

/// The product: Kinect v2.
pub const PRODUCT_ID: u16 = 0x02D8;

/// The product: Kinect v2, preview.
pub const PRODUCT_ID_PREVIEW: u16 = 0x02C4;

/// Where a device sits on the bus.
#[derive(Debug, Clone, Copy, PartialEq, Eq, PartialOrd, Ord, Hash)]
pub struct DeviceId {
    pub bus: u8,
    pub address: u8,
}

pub trait DeviceInfo {
    /// Where the device sits on the bus.
    spec fn device_id(&self) -> DeviceId;

    /// Get device id.
    fn id(&self) -> (id: DeviceId)
        ensures
            id == self.device_id(),
    ;
}

/// A Kinect v2, closed or opened.
#[derive(Debug, Clone)]
pub struct Device<T> {
    pub inner: T,
}

/// The ids of vendor and product are those of a Kinect v2.
pub open spec fn is_kinect(vendor_id: u16, product_id: u16) -> bool {
    vendor_id == VENDOR_ID && (product_id == PRODUCT_ID || product_id == PRODUCT_ID_PREVIEW)
}

/// Those of `found` that are a Kinect v2, in the order of `found`.
pub open spec fn kinects(found: Seq<Closed>) -> Seq<Closed> {
    found.filter(|entry: Closed| is_kinect(entry.vendor_id, entry.product_id))
}

/// Finds the Kinect v2 devices among what is on the bus.
pub struct DeviceEnumerator;

impl DeviceEnumerator {
    /// Enumerate all Kinect v2 devices among `found`, in the order of
    /// `found`.
    pub fn enumerate(found: Vec<Closed>) -> (devices: Vec<Device<Closed>>)
        ensures
            devices@.map_values(|device: Device<Closed>| device.inner) == kinects(found@),
    {
        let mut devices: Vec<Device<Closed>> = Vec::new();
        let mut i: usize = 0;
        assert(devices@.map_values(|device: Device<Closed>| device.inner) =~= kinects(
            found@.take(0),
        )) by {
            reveal(Seq::filter);
        }
        while i < found.len()
            invariant
                i <= found@.len(),
                devices@.map_values(|device: Device<Closed>| device.inner) == kinects(
                    found@.take(i as int),
                ),
            decreases found@.len() - i,
        {
            let entry = &found[i];
            let ghost done = found@.take(i as int);
            proof {
                let more = found@.take(i + 1);
                assert(more.drop_last() =~= done);
                reveal(Seq::filter);
            }
            if entry.vendor_id == VENDOR_ID && (entry.product_id == PRODUCT_ID || entry.product_id
                == PRODUCT_ID_PREVIEW) {
                let copy = Closed {
                    bus: entry.bus,
                    address: entry.address,
                    vendor_id: entry.vendor_id,
                    product_id: entry.product_id,
                    serial_number: entry.serial_number.clone(),
                };
                devices.push(Device { inner: copy });
            }
            i += 1;
        }
        assert(found@.take(i as int) =~= found@);
        devices
    }

    /// The first Kinect v2 among `found`; fails where there is none.
    pub fn open_default(found: Vec<Closed>) -> (device: Result<Device<Closed>, crate::Error>)
        ensures
            kinects(found@).len() == 0 <==> device is Err,
            device matches Err(error) ==> error == crate::Error::NoDevice,
            device matches Ok(first) ==> first.inner == kinects(found@)[0],
    {
        let mut devices = Self::enumerate(found);
        if devices.len() == 0 {
            return Err(crate::Error::NoDevice);
        }
        let first = devices.swap_remove(0);
        Ok(first)
    }

    /// The device that `device_info` describes.
    pub fn from(device_info: Closed) -> (device: Device<Closed>)
        ensures
            device.inner == device_info,
    {
        Device { inner: device_info }
    }
}

} // verus!
