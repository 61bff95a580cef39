//! Building a controller's status record, from identifiers alone or from a
//! device record and a live battery lookup.

use vstd::prelude::*;

use crate::controller::{
    charging_status, controller_name, name_of, unknown_status, Controller, ControllerModel,
};
use crate::device::DeviceRecord;
use crate::registry::MS_VENDOR_ID;

verus! {

/// anyhow::Error, the failure type of both entry points. Neither builds one:
/// the type is carried through their results unopened.
#[verifier::external_type_specification]
#[verifier::external_body]
pub struct ExAnyhowError(anyhow::Error);

/// The record built from identifiers alone: a wired controller is taken to
/// be charging and full, a wireless one to have an unknown state.
pub open spec fn synthetic_model(product_id: u16, bluetooth: bool) -> ControllerModel {
    ControllerModel {
        name: name_of(product_id),
        product_id,
        vendor_id: MS_VENDOR_ID,
        capacity: if bluetooth { 0 } else { 100 },
        status: if bluetooth { unknown_status() } else { charging_status() },
        bluetooth,
    }
}

/// The record built from a device record and the capacity that the battery
/// lookup gave: identifiers as reported, status always unknown.
pub open spec fn probed_model(device_info: DeviceRecord, capacity: u8) -> ControllerModel {
    ControllerModel {
        name: name_of(device_info.product_id),
        product_id: device_info.product_id,
        vendor_id: device_info.vendor_id,
        capacity,
        status: unknown_status(),
        bluetooth: device_info.spec_is_bluetooth(),
    }
}

/// Builds the record of a controller from its product identifier and
/// transport, without any I/O.
pub fn get_xbox_controller(product_id: u16, bluetooth: bool) -> (r: Result<Controller, anyhow::Error>)
    ensures
        r matches Ok(c) && c@ == synthetic_model(product_id, bluetooth),
{
    let controller = Controller {
        name: controller_name(product_id),
        product_id,
        vendor_id: MS_VENDOR_ID,
        capacity: if bluetooth { 0 } else { 100 },
        status: if bluetooth { "unknown".to_string() } else { "charging".to_string() },
        bluetooth,
    };
    Ok(controller)
}

/// The next move of the probed path's battery lookup.
pub enum ProbeStep<A> {
    /// The transport address is known: query the battery service with it.
    QueryBattery(A),
    /// The lookup is over, with this capacity.
    Finished(u8),
}

/// The move that follows the outcome of address resolution.
pub open spec fn step_for_address<A, E>(address: Result<A, E>) -> ProbeStep<A> {
    match address {
        Ok(a) => ProbeStep::QueryBattery(a),
        Err(_) => ProbeStep::Finished(0),
    }
}

/// The capacity that follows the outcome of the battery query.
pub open spec fn capacity_for_reading<E>(reading: Result<u8, E>) -> u8 {
    match reading {
        Ok(percentage) => percentage,
        Err(_) => 0,
    }
}

/// The capacity of the probed path, from the outcomes of both lookups; the
/// battery reading only counts where the address was resolved.
pub open spec fn probed_capacity<A, E, F>(address: Result<A, E>, reading: Result<u8, F>) -> u8 {
    match address {
        Ok(_) => capacity_for_reading(reading),
        Err(_) => 0,
    }
}

/// First stage of the battery lookup: where the transport address could not
/// be resolved, the capacity is 0 and the battery service is not asked.
pub fn step_after_address<A, E>(address: Result<A, E>) -> (r: ProbeStep<A>)
    ensures
        r == step_for_address(address),
{
    match address {
        Ok(a) => ProbeStep::QueryBattery(a),
        Err(_) => ProbeStep::Finished(0),
    }
}

/// Second stage of the battery lookup: the percentage read, or 0 where the
/// query failed.
pub fn capacity_after_battery<E>(reading: Result<u8, E>) -> (r: u8)
    ensures
        r == capacity_for_reading(reading),
{
    match reading {
        Ok(percentage) => percentage,
        Err(_) => 0,
    }
}

/// Builds the record of a probed controller from its device record and the
/// capacity that the battery lookup gave.
pub fn parse_xbox_controller_data(device_info: &DeviceRecord, capacity: u8) -> (r: Result<
    Controller,
    anyhow::Error,
>)
    ensures
        r matches Ok(c) && c@ == probed_model(*device_info, capacity),
{
    let bluetooth = device_info.is_bluetooth();
    let controller = Controller {
        name: controller_name(device_info.product_id()),
        product_id: device_info.product_id(),
        vendor_id: device_info.vendor_id(),
        capacity,
        status: "unknown".to_string(),
        bluetooth,
    };
    Ok(controller)
}

} // verus!
