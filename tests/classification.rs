use xbox_controller::controller::controller_name;
use xbox_controller::device::DeviceRecord;
use xbox_controller::registry::{
    MS_VENDOR_ID, MS_VENDOR_ID_STR, NO_INTERFACE, XBOX_CONTROLLER_PRODUCT_ID,
    XBOX_CONTROLLER_USB_PRODUCT_ID, XBOX_CONTROLLER_USB_PRODUCT_ID_STR,
    XBOX_ONE_S_LATEST_FW_PRODUCT_ID, XBOX_WIRELESS_CONTROLLER_BT_PRODUCT_ID,
    XBOX_WIRELESS_CONTROLLER_USB_PRODUCT_ID, XBOX_WIRELESS_CONTROLLER_USB_PRODUCT_ID_STR,
};
use xbox_controller::xbox::{
    capacity_after_battery, get_xbox_controller, parse_xbox_controller_data, step_after_address,
    ProbeStep,
};

fn probed_capacity(address: Result<String, String>, reading: Result<u8, String>) -> u8 {
    match step_after_address(address) {
        ProbeStep::QueryBattery(_) => capacity_after_battery(reading),
        ProbeStep::Finished(capacity) => capacity,
    }
}

#[test]
fn wireless_usb_wired_scenario() {
    let c = get_xbox_controller(0x0b12, false).unwrap();
    assert_eq!(c.name, "Xbox Series X/S");
    assert_eq!(c.capacity, 100);
    assert_eq!(c.status, "charging");
    assert!(!c.bluetooth);
    assert_eq!(c.product_id, 0x0b12);
    assert_eq!(c.vendor_id, 0x045e);
}

#[test]
fn one_s_bluetooth_scenario() {
    let c = get_xbox_controller(0x02df, true).unwrap();
    assert_eq!(c.name, "Xbox One S");
    assert_eq!(c.capacity, 0);
    assert_eq!(c.status, "unknown");
    assert!(c.bluetooth);
    assert_eq!(c.product_id, 0x02df);
    assert_eq!(c.vendor_id, MS_VENDOR_ID);
}

#[test]
fn probed_address_failure_scenario() {
    let d = DeviceRecord::new(0x045e, 0x0b13, -1);
    let capacity = probed_capacity(Err("no address".to_string()), Ok(87));
    assert_eq!(capacity, 0);
    let c = parse_xbox_controller_data(&d, capacity).unwrap();
    assert_eq!(c.status, "unknown");
    assert_eq!(c.capacity, 0);
    assert!(c.bluetooth);
    assert_eq!(c.name, "Xbox Series X/S");
}

#[test]
fn name_partition_over_all_ids() {
    for id in 0..=u16::MAX {
        let expected = if id == 0x0b12 || id == 0x0b13 { "Xbox Series X/S" } else { "Xbox One S" };
        assert_eq!(controller_name(id), expected);
        assert_eq!(get_xbox_controller(id, true).unwrap().name, expected);
        assert_eq!(get_xbox_controller(id, false).unwrap().name, expected);
    }
}

#[test]
fn known_one_s_ids_are_one_s() {
    for id in [
        XBOX_CONTROLLER_USB_PRODUCT_ID,
        XBOX_CONTROLLER_PRODUCT_ID,
        XBOX_ONE_S_LATEST_FW_PRODUCT_ID,
    ] {
        assert_eq!(get_xbox_controller(id, false).unwrap().name, "Xbox One S");
    }
    assert_eq!(
        get_xbox_controller(XBOX_WIRELESS_CONTROLLER_BT_PRODUCT_ID, true).unwrap().name,
        "Xbox Series X/S"
    );
}

#[test]
fn synthetic_power_state_ignores_product_id() {
    for id in [0u16, 0x02ea, 0x0b12, 0x0b13, 0xffff] {
        let wired = get_xbox_controller(id, false).unwrap();
        assert_eq!((wired.capacity, wired.status.as_str()), (100, "charging"));
        let wireless = get_xbox_controller(id, true).unwrap();
        assert_eq!((wireless.capacity, wireless.status.as_str()), (0, "unknown"));
    }
}

#[test]
fn address_failure_skips_battery_query() {
    let step = step_after_address::<String, String>(Err("lookup failed".to_string()));
    assert!(matches!(step, ProbeStep::Finished(0)));
}

#[test]
fn address_success_queries_battery() {
    let step = step_after_address::<String, String>(Ok("AA:BB:CC:DD:EE:FF".to_string()));
    match step {
        ProbeStep::QueryBattery(address) => assert_eq!(address, "AA:BB:CC:DD:EE:FF"),
        ProbeStep::Finished(_) => panic!("the battery service was not asked"),
    }
}

#[test]
fn battery_failure_gives_zero() {
    assert_eq!(capacity_after_battery::<String>(Err("query failed".to_string())), 0);
    assert_eq!(probed_capacity(Ok("addr".to_string()), Err("query failed".to_string())), 0);
}

#[test]
fn battery_percentage_is_kept() {
    for p in [0u8, 1, 42, 99, 100] {
        assert_eq!(capacity_after_battery::<String>(Ok(p)), p);
        assert_eq!(probed_capacity(Ok("addr".to_string()), Ok(p)), p);
    }
}

#[test]
fn probed_status_is_always_unknown() {
    let wired = DeviceRecord::new(0x045e, 0x0b12, 0);
    for capacity in [0u8, 50, 100] {
        let c = parse_xbox_controller_data(&wired, capacity).unwrap();
        assert_eq!(c.status, "unknown");
        assert_eq!(c.capacity, capacity);
        assert!(!c.bluetooth);
    }
}

#[test]
fn probed_copies_reported_identifiers() {
    let d = DeviceRecord::new(0x1234, 0x02ea, 2);
    let c = parse_xbox_controller_data(&d, 64).unwrap();
    assert_eq!(c.vendor_id, 0x1234);
    assert_eq!(c.product_id, 0x02ea);
    assert_eq!(c.name, "Xbox One S");
    assert_eq!(c.capacity, 64);
    assert!(!c.bluetooth);
}

#[test]
fn entry_points_are_idempotent() {
    let a = get_xbox_controller(0x0b13, true).unwrap();
    let b = get_xbox_controller(0x0b13, true).unwrap();
    assert_eq!(
        (a.name, a.product_id, a.vendor_id, a.capacity, a.status, a.bluetooth),
        (b.name, b.product_id, b.vendor_id, b.capacity, b.status, b.bluetooth)
    );
    let d = DeviceRecord::new(0x045e, 0x0b13, NO_INTERFACE);
    let a = parse_xbox_controller_data(&d, probed_capacity(Ok("x".to_string()), Ok(73))).unwrap();
    let b = parse_xbox_controller_data(&d, probed_capacity(Ok("x".to_string()), Ok(73))).unwrap();
    assert_eq!(
        (a.name, a.product_id, a.vendor_id, a.capacity, a.status, a.bluetooth),
        (b.name, b.product_id, b.vendor_id, b.capacity, b.status, b.bluetooth)
    );
}

#[test]
fn device_record_accessors() {
    let d = DeviceRecord::new(0x045e, 0x0b20, 3);
    assert_eq!(d.vendor_id(), 0x045e);
    assert_eq!(d.product_id(), 0x0b20);
    assert_eq!(d.interface_number(), 3);
    assert!(!d.is_bluetooth());
    assert!(DeviceRecord::new(0x045e, 0x0b20, -1).is_bluetooth());
}

#[test]
fn registry_text_forms_match_numbers() {
    assert_eq!(format!("{:04x}", MS_VENDOR_ID), MS_VENDOR_ID_STR);
    assert_eq!(format!("{:04x}", XBOX_CONTROLLER_USB_PRODUCT_ID), XBOX_CONTROLLER_USB_PRODUCT_ID_STR);
    assert_eq!(
        format!("{:04x}", XBOX_WIRELESS_CONTROLLER_USB_PRODUCT_ID),
        XBOX_WIRELESS_CONTROLLER_USB_PRODUCT_ID_STR
    );
    assert_eq!(NO_INTERFACE, -1);
}
