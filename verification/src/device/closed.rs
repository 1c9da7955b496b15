//! A device that was found and is not open.
use vstd::prelude::*;

use crate::device::{Device, DeviceId, DeviceInfo};

verus! {

/// What the bus tells of a device.
#[derive(Debug, Clone, PartialEq, Eq)]
pub struct Closed {
    pub bus: u8,
    pub address: u8,
    pub vendor_id: u16,
    pub product_id: u16,
    /// The serial number of the device descriptor; empty where it has none.
    pub serial_number: String,
}

impl DeviceInfo for Device<Closed> {
    open spec fn device_id(&self) -> DeviceId {
        DeviceId { bus: self.inner.bus, address: self.inner.address }
    }

    fn id(&self) -> (id: DeviceId) {
        DeviceId { bus: self.inner.bus, address: self.inner.address }
    }
}

} // verus!
