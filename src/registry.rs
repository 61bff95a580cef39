//! Vendor and product identifiers of the Xbox controller family.

use vstd::prelude::*;

verus! {

/// The manufacturer's vendor identifier.
pub const MS_VENDOR_ID: u16 = 0x045e;

/// The manufacturer's vendor identifier as hexadecimal text.
pub const MS_VENDOR_ID_STR: &'static str = "045e";

/// Xbox One S controller, wired.
pub const XBOX_CONTROLLER_USB_PRODUCT_ID: u16 = 0x02ea;

/// Xbox One S controller, wired, as hexadecimal text.
pub const XBOX_CONTROLLER_USB_PRODUCT_ID_STR: &'static str = "02ea";

/// Xbox One S controller, wireless.
pub const XBOX_CONTROLLER_PRODUCT_ID: u16 = 0x02df;

/// Xbox One S controller after the firmware update that gave it the
/// identifier of the Series X/S generation.
pub const XBOX_ONE_S_LATEST_FW_PRODUCT_ID: u16 = 0x0b20;

/// Xbox Wireless Controller (model 1914), wired.
pub const XBOX_WIRELESS_CONTROLLER_USB_PRODUCT_ID: u16 = 0x0b12;

/// Xbox Wireless Controller (model 1914), wired, as hexadecimal text.
pub const XBOX_WIRELESS_CONTROLLER_USB_PRODUCT_ID_STR: &'static str = "0b12";

/// Xbox Wireless Controller (model 1914), over Bluetooth.
pub const XBOX_WIRELESS_CONTROLLER_BT_PRODUCT_ID: u16 = 0x0b13;

/// Interface number that a device directory reports for a device without
/// a wired interface, that is, one connected over Bluetooth.
pub const NO_INTERFACE: i32 = -1;

/// Whether `product_id` is one of the two identifiers of the Xbox Wireless
/// Controller (Series X/S generation).
pub open spec fn is_series_xs(product_id: u16) -> bool {
    product_id == XBOX_WIRELESS_CONTROLLER_USB_PRODUCT_ID
        || product_id == XBOX_WIRELESS_CONTROLLER_BT_PRODUCT_ID
}

} // verus!
