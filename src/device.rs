//! A snapshot of one device as a device directory reports it.

use vstd::prelude::*;

use crate::registry::NO_INTERFACE;

verus! {

/// Identifiers and connection metadata of one discovered device.
#[derive(Clone, Copy, Debug, PartialEq, Eq, Structural)]
pub struct DeviceRecord {
    pub vendor_id: u16,
    pub product_id: u16,
    /// Number of the wired interface, or `NO_INTERFACE` for a device
    /// connected over Bluetooth.
    pub interface_number: i32,
}

impl DeviceRecord {
    /// Whether the device has no wired interface, that is, is connected
    /// over Bluetooth.
    pub open spec fn spec_is_bluetooth(&self) -> bool {
        self.interface_number == NO_INTERFACE
    }

    pub fn new(vendor_id: u16, product_id: u16, interface_number: i32) -> (r: DeviceRecord)
        ensures
            r.vendor_id == vendor_id,
            r.product_id == product_id,
            r.interface_number == interface_number,
    {
        DeviceRecord { vendor_id, product_id, interface_number }
    }

    pub fn vendor_id(&self) -> (r: u16)
        ensures
            r == self.vendor_id,
    {
        self.vendor_id
    }

    pub fn product_id(&self) -> (r: u16)
        ensures
            r == self.product_id,
    {
        self.product_id
    }

    pub fn interface_number(&self) -> (r: i32)
        ensures
            r == self.interface_number,
    {
        self.interface_number
    }

    /// Whether the device is connected over Bluetooth.
    pub fn is_bluetooth(&self) -> (r: bool)
        ensures
            r == self.spec_is_bluetooth(),
    {
        self.interface_number == NO_INTERFACE
    }
}

} // verus!
