//! The status record of one controller, and its mathematical model.

use vstd::prelude::*;

use crate::registry::is_series_xs;

verus! {

/// Normalized status of one connected controller.
pub struct Controller {
    /// Model name: "Xbox Series X/S" or "Xbox One S".
    pub name: String,
    pub product_id: u16,
    pub vendor_id: u16,
    /// Battery percentage; 0 also stands for "unknown".
    pub capacity: u8,
    /// Power state: "charging" or "unknown".
    pub status: String,
    /// Connected over Bluetooth rather than by cable.
    pub bluetooth: bool,
}

/// What a `Controller` says, with its texts as character sequences.
pub struct ControllerModel {
    pub name: Seq<char>,
    pub product_id: u16,
    pub vendor_id: u16,
    pub capacity: u8,
    pub status: Seq<char>,
    pub bluetooth: bool,
}

impl View for Controller {
    type V = ControllerModel;

    open spec fn view(&self) -> ControllerModel {
        ControllerModel {
            name: self.name@,
            product_id: self.product_id,
            vendor_id: self.vendor_id,
            capacity: self.capacity,
            status: self.status@,
            bluetooth: self.bluetooth,
        }
    }
}

/// Name of the Series X/S generation.
pub open spec fn series_xs_name() -> Seq<char> {
    "Xbox Series X/S"@
}

/// Name of every other controller of the family.
pub open spec fn one_s_name() -> Seq<char> {
    "Xbox One S"@
}

/// Status of a controller that is known to be charging.
pub open spec fn charging_status() -> Seq<char> {
    "charging"@
}

/// Status of a controller whose power state is not known.
pub open spec fn unknown_status() -> Seq<char> {
    "unknown"@
}

/// The model name that belongs to `product_id`.
pub open spec fn name_of(product_id: u16) -> Seq<char> {
    if is_series_xs(product_id) {
        series_xs_name()
    } else {
        one_s_name()
    }
}

/// The model name of the controller with identifier `product_id`.
pub fn controller_name(product_id: u16) -> (r: String)
    ensures
        r@ == name_of(product_id),
{
    if product_id == crate::registry::XBOX_WIRELESS_CONTROLLER_USB_PRODUCT_ID
        || product_id == crate::registry::XBOX_WIRELESS_CONTROLLER_BT_PRODUCT_ID
    {
        "Xbox Series X/S".to_string()
    } else {
        "Xbox One S".to_string()
    }
}

} // verus!
