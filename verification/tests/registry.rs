use bltui::devices::{
    get_device_order, get_first_device, get_last_device, get_next_device, get_previous_device,
    position_in_order, Device, Devices, MacAddress,
};

fn mac(last_byte: u8) -> MacAddress {
    MacAddress::from_bytes(0xAA, 0xBB, 0xCC, 0xDD, 0xEE, last_byte)
}

fn device(last_byte: u8, name: Option<&str>, connected: bool, paired: bool) -> Device {
    Device {
        name: name.map(|n| n.to_string()),
        address: mac(last_byte),
        connected,
        paired,
        rssi: None,
        tx_power: None,
    }
}

#[test]
fn mac_from_bytes_value() {
    let m = mac(0x01);
    assert_eq!(m.value, 0xAABBCCDDEE01);
}

#[test]
fn mac_display_string() {
    let m = mac(0x01);
    assert_eq!(m.display_string(), "AA:BB:CC:DD:EE:01");
    let zero = MacAddress::from_bytes(0, 0, 0, 0, 0, 0);
    assert_eq!(zero.display_string(), "00:00:00:00:00:00");
}

#[test]
fn mac_parse_dbus_path() {
    let m = MacAddress::from_dbus_path("/org/bluez/hci0/dev_AA_BB_CC_DD_EE_01").unwrap();
    assert_eq!(m, mac(0x01));
    let lower = MacAddress::from_dbus_path("/org/bluez/hci0/dev_aa_bb_cc_dd_ee_01").unwrap();
    assert_eq!(lower, mac(0x01));
}

#[test]
fn mac_parse_rejects_malformed_paths() {
    assert!(MacAddress::from_dbus_path("/org/bluez/hci0").is_none());
    assert!(MacAddress::from_dbus_path("/org/bluez/hci0/dev_AA_BB_CC_DD_EE").is_none());
    assert!(MacAddress::from_dbus_path("/org/bluez/hci0/dev_AA_BB_CC_DD_EE_0G").is_none());
    assert!(MacAddress::from_dbus_path("/org/bluez/hci0/dev_AA_BB_CC_DD_EE_012").is_none());
    assert!(MacAddress::from_dbus_path("").is_none());
}

#[test]
fn upsert_registry_idempotence() {
    let mut devices = Devices::new();
    devices.insert_or_replace(device(0x01, Some("keyboard"), false, false));
    devices.insert_or_replace(device(0x01, Some("keyboard"), true, false));
    assert_eq!(devices.len(), 1);
    let d = devices.get_by_mac_address(&mac(0x01)).unwrap();
    assert!(d.connected);
    assert_eq!(d.name.as_deref(), Some("keyboard"));
}

#[test]
fn upsert_keeps_registry_position_and_cursor() {
    let mut devices = Devices::new();
    devices.insert_or_replace(device(0x01, Some("first"), false, false));
    devices.insert_or_replace(device(0x02, Some("second"), false, false));
    devices.select(Some(1));
    devices.insert_or_replace(device(0x01, Some("first"), true, false));
    assert_eq!(devices.get_index_by_mac_address(&mac(0x01)), Some(0));
    assert_eq!(devices.selected_index(), Some(1));
    assert_eq!(devices.get_selected_device().unwrap().address, mac(0x02));
}

#[test]
fn add_update_and_lookup() {
    let mut devices = Devices::new();
    devices.add(device(0x01, Some("one"), false, false));
    devices.update(device(0x02, None, false, false));
    assert_eq!(devices.len(), 2);
    assert_eq!(devices.get_index_by_mac_address(&mac(0x02)), Some(1));
    assert!(devices.get_by_mac_address(&mac(0x03)).is_none());
    assert!(devices.get_index_by_mac_address(&mac(0x03)).is_none());
    assert_eq!(devices.device_at(0).name.as_deref(), Some("one"));
}

#[test]
fn display_order_partitions_into_tiers() {
    let mut devices = Devices::new();
    devices.insert_or_replace(device(0x01, Some("plain"), false, false));
    devices.insert_or_replace(device(0x02, Some("paired"), false, true));
    devices.insert_or_replace(device(0x03, Some("connected"), true, false));
    devices.insert_or_replace(device(0x04, None, false, false));
    devices.insert_or_replace(device(0x05, Some("also-connected"), true, true));

    let order = get_device_order(&devices, false);
    assert_eq!(order, vec![mac(0x03), mac(0x05), mac(0x02), mac(0x01)]);

    let order_all = get_device_order(&devices, true);
    assert_eq!(order_all, vec![mac(0x03), mac(0x05), mac(0x02), mac(0x01), mac(0x04)]);

    // Stable under repeated calls given unchanged input.
    assert_eq!(get_device_order(&devices, false), order);
}

#[test]
fn unnamed_then_named_connected_floats_to_top() {
    let mut devices = Devices::new();
    let path_mac = MacAddress::from_dbus_path("/org/bluez/hci0/dev_AA_BB_CC_DD_EE_01").unwrap();
    devices.insert_or_replace(Device::new(path_mac, None, false, None, None));
    devices.insert_or_replace(Device::new(path_mac, Some("speaker".to_string()), true, None, None));

    let order_all = get_device_order(&devices, true);
    assert_eq!(order_all.first(), Some(&path_mac));
    let order_named = get_device_order(&devices, false);
    assert!(order_named.contains(&path_mac));
    assert_eq!(devices.len(), 1);
}

#[test]
fn cursor_moves_clamp_and_jump() {
    let mut devices = Devices::new();
    devices.move_selector_down();
    assert_eq!(devices.selected_index(), None);
    devices.move_selector_up();
    assert_eq!(devices.selected_index(), None);

    devices.insert_or_replace(device(0x01, Some("one"), false, false));
    devices.insert_or_replace(device(0x02, Some("two"), false, false));
    devices.insert_or_replace(device(0x03, Some("three"), false, false));

    devices.move_selector_down();
    assert_eq!(devices.selected_index(), Some(0));
    devices.move_selector_down();
    devices.move_selector_down();
    devices.move_selector_down();
    assert_eq!(devices.selected_index(), Some(2));

    devices.select(None);
    devices.move_selector_up();
    assert_eq!(devices.selected_index(), Some(2));
    devices.move_selector_up();
    devices.move_selector_up();
    devices.move_selector_up();
    assert_eq!(devices.selected_index(), Some(0));
}

#[test]
fn device_equality_is_by_address() {
    let a = device(0x01, Some("one"), false, false);
    let also_a = device(0x01, Some("renamed"), true, true);
    let b = device(0x02, Some("one"), false, false);
    assert_eq!(a, also_a);
    assert_ne!(a, b);
}

#[test]
fn default_registry_is_empty() {
    let devices = Devices::default();
    assert_eq!(devices.len(), 0);
    assert_eq!(devices.selected_index(), None);
}

#[test]
fn order_navigation_steps_and_clamps() {
    let order = vec![mac(0x01), mac(0x02), mac(0x03)];
    assert_eq!(get_first_device(&order), Some(mac(0x01)));
    assert_eq!(get_last_device(&order), Some(mac(0x03)));
    assert_eq!(get_next_device(&order, &mac(0x01)), Some(mac(0x02)));
    assert_eq!(get_next_device(&order, &mac(0x03)), None);
    assert_eq!(get_previous_device(&order, &mac(0x02)), Some(mac(0x01)));
    assert_eq!(get_previous_device(&order, &mac(0x01)), None);
    assert_eq!(get_next_device(&order, &mac(0x09)), None);
    assert_eq!(position_in_order(&order, &mac(0x02)), Some(1));
    assert_eq!(position_in_order(&order, &mac(0x09)), None);

    let empty: Vec<MacAddress> = Vec::new();
    assert_eq!(get_first_device(&empty), None);
    assert_eq!(get_last_device(&empty), None);
}
