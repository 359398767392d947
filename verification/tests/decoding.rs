use bluescan::attrs::{AttrMap, AttrType, AttrValue};
use bluescan::records::{adapter_id_of_path, Adapter, Device};

fn s(x: &str) -> String {
    x.to_string()
}

fn full_adapter_entries() -> Vec<(String, AttrValue)> {
    vec![
        (s("Address"), AttrValue::Str(s("AA:BB:CC:DD:EE:FF"))),
        (s("AddressType"), AttrValue::Str(s("public"))),
        (s("Name"), AttrValue::Str(s("hci0"))),
        (s("Alias"), AttrValue::Str(s("hci0"))),
        (s("Class"), AttrValue::U32(0)),
        (s("Powered"), AttrValue::Bool(true)),
        (s("Discoverable"), AttrValue::Bool(false)),
        (s("DiscoverableTimeout"), AttrValue::U32(180)),
        (s("Pairable"), AttrValue::Bool(true)),
        (s("PairableTimeout"), AttrValue::U32(0)),
        (s("Discovering"), AttrValue::Bool(false)),
        (s("Modalias"), AttrValue::Str(s("usb:v1D6Bp0246d0532"))),
        (s("UUIDs"), AttrValue::StrSeq(vec![])),
    ]
}

fn full_device_entries() -> Vec<(String, AttrValue)> {
    vec![
        (s("Address"), AttrValue::Str(s("11:22:33:44:55:66"))),
        (s("Paired"), AttrValue::Bool(true)),
        (s("Trusted"), AttrValue::Bool(false)),
        (s("Blocked"), AttrValue::Bool(false)),
        (s("LegacyPairing"), AttrValue::Bool(false)),
        (s("Connected"), AttrValue::Bool(true)),
        (s("UUIDs"), AttrValue::StrSeq(vec![s("0000110b-0000-1000-8000-00805f9b34fb")])),
        (s("ServicesResolved"), AttrValue::Bool(true)),
    ]
}

#[test]
fn get_str_finds_string_value() {
    let m = AttrMap { entries: vec![(s("Address"), AttrValue::Str(s("AA:BB")))] };
    assert_eq!(m.get_str("Address"), Some(s("AA:BB")));
}

#[test]
fn get_missing_key_is_none() {
    let m = AttrMap { entries: vec![(s("Address"), AttrValue::Str(s("AA:BB")))] };
    assert_eq!(m.get_str("Name"), None);
    assert_eq!(m.get_bool("Name"), None);
}

#[test]
fn get_wrong_type_is_none() {
    let m = AttrMap { entries: vec![(s("Powered"), AttrValue::Str(s("true")))] };
    assert_eq!(m.get_bool("Powered"), None);
    assert_eq!(m.get_u32("Powered"), None);
    assert_eq!(m.get_str("Powered"), Some(s("true")));
}

#[test]
fn get_each_numeric_width() {
    let m = AttrMap {
        entries: vec![
            (s("Appearance"), AttrValue::U16(961)),
            (s("Class"), AttrValue::U32(2360324)),
            (s("RSSI"), AttrValue::I16(-42)),
        ],
    };
    assert_eq!(m.get_u16("Appearance"), Some(961));
    assert_eq!(m.get_u32("Class"), Some(2360324));
    assert_eq!(m.get_i16("RSSI"), Some(-42));
    assert_eq!(m.get_u16("Class"), None);
    assert_eq!(m.get_i16("Appearance"), None);
}

#[test]
fn get_str_seq_returns_all_items_in_order() {
    let m = AttrMap { entries: vec![(s("UUIDs"), AttrValue::StrSeq(vec![s("b"), s("a"), s("a")]))] };
    assert_eq!(m.get_str_seq("UUIDs"), Some(vec![s("b"), s("a"), s("a")]));
}

#[test]
fn first_binding_of_a_key_wins() {
    let m = AttrMap {
        entries: vec![
            (s("Powered"), AttrValue::Bool(true)),
            (s("Powered"), AttrValue::Bool(false)),
        ],
    };
    assert_eq!(m.get_bool("Powered"), Some(true));
}

#[test]
fn first_binding_wins_even_when_mistyped() {
    let m = AttrMap {
        entries: vec![
            (s("Powered"), AttrValue::U32(1)),
            (s("Powered"), AttrValue::Bool(true)),
        ],
    };
    assert_eq!(m.get_bool("Powered"), None);
}

#[test]
fn require_errors_name_key_and_expected_type() {
    let m = AttrMap { entries: vec![] };
    let e = m.require_str("Name").unwrap_err();
    assert_eq!(e.key, s("Name"));
    assert_eq!(e.expected, AttrType::Str);
    let e = m.require_bool("Powered").unwrap_err();
    assert_eq!(e.key, s("Powered"));
    assert_eq!(e.expected, AttrType::Bool);
    let e = m.require_u16("Appearance").unwrap_err();
    assert_eq!(e.key, s("Appearance"));
    assert_eq!(e.expected, AttrType::U16);
    let e = m.require_u32("Class").unwrap_err();
    assert_eq!(e.key, s("Class"));
    assert_eq!(e.expected, AttrType::U32);
    let e = m.require_i16("RSSI").unwrap_err();
    assert_eq!(e.key, s("RSSI"));
    assert_eq!(e.expected, AttrType::I16);
    let e = m.require_str_seq("UUIDs").unwrap_err();
    assert_eq!(e.key, s("UUIDs"));
    assert_eq!(e.expected, AttrType::StrSeq);
}

#[test]
fn require_bool_returns_present_value() {
    let m = AttrMap { entries: vec![(s("Powered"), AttrValue::Bool(false))] };
    assert_eq!(m.require_bool("Powered").unwrap(), false);
}

#[test]
fn adapter_from_complete_map_copies_every_field() {
    let m = AttrMap { entries: full_adapter_entries() };
    let a = Adapter::from("/org/bluez/hci0", &m).unwrap();
    assert_eq!(a.id, s("hci0"));
    assert_eq!(a.address, s("AA:BB:CC:DD:EE:FF"));
    assert_eq!(a.address_type, s("public"));
    assert_eq!(a.name, s("hci0"));
    assert_eq!(a.alias, s("hci0"));
    assert_eq!(a.class, 0);
    assert_eq!(a.powered, true);
    assert_eq!(a.discoverable, false);
    assert_eq!(a.discoverable_timeout, 180);
    assert_eq!(a.pairable, true);
    assert_eq!(a.pairable_timeout, 0);
    assert_eq!(a.discovering, false);
    assert_eq!(a.modalias, s("usb:v1D6Bp0246d0532"));
    assert!(a.uuids.is_empty());
}

#[test]
fn adapter_from_any_single_missing_field_fails_naming_it() {
    let keys = [
        "Address",
        "AddressType",
        "Name",
        "Alias",
        "Class",
        "Powered",
        "Discoverable",
        "DiscoverableTimeout",
        "Pairable",
        "PairableTimeout",
        "Discovering",
        "Modalias",
        "UUIDs",
    ];
    for dropped in keys {
        let entries: Vec<(String, AttrValue)> =
            full_adapter_entries().into_iter().filter(|(k, _)| k != dropped).collect();
        let m = AttrMap { entries };
        let e = Adapter::from("/org/bluez/hci0", &m).unwrap_err();
        assert_eq!(e.key, s(dropped));
    }
}

#[test]
fn device_from_complete_map_copies_every_field() {
    let m = AttrMap { entries: full_device_entries() };
    let d = Device::from("/org/bluez/hci0/dev_11_22_33_44_55_66", &m).unwrap();
    assert_eq!(d.address, s("11:22:33:44:55:66"));
    assert_eq!(d.paired, true);
    assert_eq!(d.trusted, false);
    assert_eq!(d.blocked, false);
    assert_eq!(d.legacy_pairing, false);
    assert_eq!(d.connected, true);
    assert_eq!(d.uuids, vec![s("0000110b-0000-1000-8000-00805f9b34fb")]);
    assert_eq!(d.services_resolved, true);
}

#[test]
fn device_from_any_single_missing_field_fails_naming_it() {
    let keys = [
        "Address",
        "Paired",
        "Trusted",
        "Blocked",
        "LegacyPairing",
        "Connected",
        "UUIDs",
        "ServicesResolved",
    ];
    for dropped in keys {
        let entries: Vec<(String, AttrValue)> =
            full_device_entries().into_iter().filter(|(k, _)| k != dropped).collect();
        let m = AttrMap { entries };
        let e = Device::from("/any/path", &m).unwrap_err();
        assert_eq!(e.key, s(dropped));
    }
}

#[test]
fn adapter_from_wrong_type_fails_like_absent() {
    let mut wrong: Vec<(String, AttrValue)> = full_adapter_entries();
    for entry in wrong.iter_mut() {
        if entry.0 == "Powered" {
            entry.1 = AttrValue::Str(s("true"));
        }
    }
    let absent: Vec<(String, AttrValue)> =
        full_adapter_entries().into_iter().filter(|(k, _)| k != "Powered").collect();
    let e_wrong = Adapter::from("/org/bluez/hci0", &AttrMap { entries: wrong }).unwrap_err();
    let e_absent = Adapter::from("/org/bluez/hci0", &AttrMap { entries: absent }).unwrap_err();
    assert_eq!(e_wrong.key, e_absent.key);
    assert_eq!(e_wrong.expected, e_absent.expected);
    assert_eq!(e_wrong.key, s("Powered"));
    assert_eq!(e_wrong.expected, AttrType::Bool);
}

#[test]
fn adapter_id_strips_service_root_prefix() {
    assert_eq!(adapter_id_of_path("/org/bluez/hci0"), s("hci0"));
    assert_eq!(adapter_id_of_path("/org/bluez/hci1"), s("hci1"));
}

#[test]
fn adapter_id_keeps_raw_path_without_prefix() {
    assert_eq!(adapter_id_of_path("/other/root/hci0"), s("/other/root/hci0"));
    assert_eq!(adapter_id_of_path("/org/blue"), s("/org/blue"));
    assert_eq!(adapter_id_of_path(""), s(""));
}

#[test]
fn adapter_id_of_bare_prefix_is_empty() {
    assert_eq!(adapter_id_of_path("/org/bluez/"), s(""));
}
