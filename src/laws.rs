//! Properties of the two ways of building a controller's status record.

use vstd::prelude::*;

use crate::controller::Controller;
use crate::device::DeviceRecord;
use crate::registry::{XBOX_WIRELESS_CONTROLLER_BT_PRODUCT_ID, XBOX_WIRELESS_CONTROLLER_USB_PRODUCT_ID};
use crate::xbox::{
    capacity_for_reading, probed_capacity, probed_model, step_for_address, synthetic_model,
    ProbeStep,
};

verus! {

/// The capacity that the probed path ends with when the battery service is
/// asked only where the first stage says so.
pub open spec fn capacity_by_steps<A, E, F>(address: Result<A, E>, reading: Result<u8, F>) -> u8 {
    match step_for_address(address) {
        ProbeStep::QueryBattery(_) => capacity_for_reading(reading),
        ProbeStep::Finished(capacity) => capacity,
    }
}

/// The name of a controller depends on its product identifier alone, on
/// both paths and whatever the transport: "Xbox Series X/S" for the wired
/// and the Bluetooth identifier of the wireless model, "Xbox One S" for
/// every other value.
pub proof fn lemma_name_from_product_id(
    product_id: u16,
    bluetooth: bool,
    device_info: DeviceRecord,
    capacity: u8,
)
    requires
        device_info.product_id == product_id,
    ensures
        synthetic_model(product_id, bluetooth).name == probed_model(device_info, capacity).name,
        product_id == XBOX_WIRELESS_CONTROLLER_USB_PRODUCT_ID
            || product_id == XBOX_WIRELESS_CONTROLLER_BT_PRODUCT_ID
            ==> synthetic_model(product_id, bluetooth).name == "Xbox Series X/S"@,
        product_id != XBOX_WIRELESS_CONTROLLER_USB_PRODUCT_ID
            && product_id != XBOX_WIRELESS_CONTROLLER_BT_PRODUCT_ID
            ==> synthetic_model(product_id, bluetooth).name == "Xbox One S"@,
{
}

/// On the synthetic path a wired controller is full and charging, and a
/// Bluetooth one has capacity 0 and an unknown status, whatever its product
/// identifier.
pub proof fn lemma_synthetic_power_state(product_id: u16, bluetooth: bool)
    ensures
        !bluetooth ==> synthetic_model(product_id, bluetooth).capacity == 100
            && synthetic_model(product_id, bluetooth).status == "charging"@,
        bluetooth ==> synthetic_model(product_id, bluetooth).capacity == 0
            && synthetic_model(product_id, bluetooth).status == "unknown"@,
{
}

/// On the probed path the status is "unknown", whatever both lookups gave.
pub proof fn lemma_probed_status_unknown<A, E, F>(
    device_info: DeviceRecord,
    address: Result<A, E>,
    reading: Result<u8, F>,
)
    ensures
        probed_model(device_info, probed_capacity(address, reading)).status == "unknown"@,
{
}

/// Where the address cannot be resolved, the lookup ends at once with
/// capacity 0: the battery service is not asked.
pub proof fn lemma_address_failure<A, E, F>(error: E, reading: Result<u8, F>)
    ensures
        !(step_for_address::<A, E>(Err(error)) is QueryBattery),
        step_for_address::<A, E>(Err(error)) == ProbeStep::<A>::Finished(0),
        capacity_by_steps::<A, E, F>(Err(error), reading) == 0,
        probed_capacity::<A, E, F>(Err(error), reading) == 0,
{
}

/// Where the address is resolved and the battery query fails, the capacity
/// is 0.
pub proof fn lemma_battery_failure<A, E, F>(address: A, error: F)
    ensures
        step_for_address::<A, E>(Ok(address)) == ProbeStep::QueryBattery(address),
        capacity_by_steps::<A, E, F>(Ok(address), Err(error)) == 0,
        probed_capacity::<A, E, F>(Ok(address), Err(error)) == 0,
{
}

/// Where both lookups succeed with a percentage, the capacity is that
/// percentage.
pub proof fn lemma_battery_percentage<A, E, F>(address: A, percentage: u8)
    requires
        percentage <= 100,
    ensures
        step_for_address::<A, E>(Ok(address)) == ProbeStep::QueryBattery(address),
        capacity_by_steps::<A, E, F>(Ok(address), Ok(percentage)) == percentage,
        probed_capacity::<A, E, F>(Ok(address), Ok(percentage)) == percentage,
{
}

/// Two records that the synthetic path built from the same identifier and
/// transport are identical.
pub proof fn lemma_synthetic_idempotent(
    product_id: u16,
    bluetooth: bool,
    first: Controller,
    second: Controller,
)
    requires
        first@ == synthetic_model(product_id, bluetooth),
        second@ == synthetic_model(product_id, bluetooth),
    ensures
        first@ == second@,
        first.name@ == second.name@,
        first.status@ == second.status@,
{
}

/// Two records that the probed path built from the same device record and
/// the same lookup outcomes are identical.
pub proof fn lemma_probed_idempotent<A, E, F>(
    device_info: DeviceRecord,
    address: Result<A, E>,
    reading: Result<u8, F>,
    first: Controller,
    second: Controller,
)
    requires
        first@ == probed_model(device_info, capacity_by_steps(address, reading)),
        second@ == probed_model(device_info, capacity_by_steps(address, reading)),
    ensures
        first@ == second@,
        first.name@ == second.name@,
        first.status@ == second.status@,
        first@ == probed_model(device_info, probed_capacity(address, reading)),
{
}

} // verus!
