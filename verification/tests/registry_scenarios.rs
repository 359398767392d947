use bluescan::attrs::{AttrMap, AttrValue};
use bluescan::registry::{
    adapter_interface_name, adapters_of_tree, device_interface_name, devices_of_tree, service_name,
    ObjectEntry, RegistryTree,
};

fn s(x: &str) -> String {
    x.to_string()
}

fn hci0_adapter_map() -> AttrMap {
    AttrMap {
        entries: vec![
            (s("Address"), AttrValue::Str(s("AA:BB:CC:DD:EE:FF"))),
            (s("AddressType"), AttrValue::Str(s("public"))),
            (s("Name"), AttrValue::Str(s("hci0"))),
            (s("Alias"), AttrValue::Str(s("hci0"))),
            (s("Class"), AttrValue::U32(0)),
            (s("Powered"), AttrValue::Bool(true)),
            (s("Discoverable"), AttrValue::Bool(false)),
            (s("DiscoverableTimeout"), AttrValue::U32(180)),
            (s("Pairable"), AttrValue::Bool(true)),
            (s("PairableTimeout"), AttrValue::U32(0)),
            (s("Discovering"), AttrValue::Bool(false)),
            (s("Modalias"), AttrValue::Str(s("usb:v1D6Bp0246d0532"))),
            (s("UUIDs"), AttrValue::StrSeq(vec![])),
        ],
    }
}

fn connected_device_map() -> AttrMap {
    AttrMap {
        entries: vec![
            (s("Address"), AttrValue::Str(s("11:22:33:44:55:66"))),
            (s("Paired"), AttrValue::Bool(false)),
            (s("Trusted"), AttrValue::Bool(false)),
            (s("Blocked"), AttrValue::Bool(false)),
            (s("LegacyPairing"), AttrValue::Bool(false)),
            (s("Connected"), AttrValue::Bool(true)),
            (s("UUIDs"), AttrValue::StrSeq(vec![s("180f")])),
            (s("ServicesResolved"), AttrValue::Bool(true)),
        ],
    }
}

#[test]
fn wire_names_match_the_service_schema() {
    assert_eq!(service_name(), "org.bluez");
    assert_eq!(adapter_interface_name(), "org.bluez.Adapter1");
    assert_eq!(device_interface_name(), "org.bluez.Device1");
}

#[test]
fn single_adapter_tree_yields_one_adapter() {
    let tree = RegistryTree {
        objects: vec![ObjectEntry {
            path: s("/org/bluez/hci0"),
            interfaces: vec![(s("org.bluez.Adapter1"), hci0_adapter_map())],
        }],
    };
    let (adapters, diags) = adapters_of_tree(&tree);
    assert_eq!(adapters.len(), 1);
    assert!(diags.is_empty());
    assert_eq!(adapters[0].id, s("hci0"));
    assert_eq!(adapters[0].powered, true);
    assert!(adapters[0].uuids.is_empty());
}

#[test]
fn adapter_without_powered_is_skipped_with_diagnostic() {
    let mut map = hci0_adapter_map();
    map.entries.retain(|(k, _)| k != "Powered");
    let tree = RegistryTree {
        objects: vec![ObjectEntry {
            path: s("/org/bluez/hci0"),
            interfaces: vec![(s("org.bluez.Adapter1"), map)],
        }],
    };
    let (adapters, diags) = adapters_of_tree(&tree);
    assert!(adapters.is_empty());
    assert_eq!(diags.len(), 1);
    assert_eq!(diags[0].key, s("Powered"));
}

#[test]
fn object_without_adapter_interface_never_yields_adapter() {
    let tree = RegistryTree {
        objects: vec![
            ObjectEntry {
                path: s("/org/bluez/hci0/dev_11_22_33_44_55_66"),
                interfaces: vec![(s("org.bluez.Device1"), connected_device_map())],
            },
            ObjectEntry { path: s("/org/bluez"), interfaces: vec![] },
        ],
    };
    let (adapters, diags) = adapters_of_tree(&tree);
    assert!(adapters.is_empty());
    assert!(diags.is_empty());
}

#[test]
fn every_object_with_adapter_interface_is_attempted() {
    let mut broken = hci0_adapter_map();
    broken.entries.retain(|(k, _)| k != "Alias");
    let tree = RegistryTree {
        objects: vec![
            ObjectEntry {
                path: s("/org/bluez/hci0"),
                interfaces: vec![(s("org.bluez.Adapter1"), hci0_adapter_map())],
            },
            ObjectEntry {
                path: s("/org/bluez/hci1"),
                interfaces: vec![(s("org.bluez.Adapter1"), broken)],
            },
            ObjectEntry {
                path: s("/org/bluez/hci0/dev_11_22_33_44_55_66"),
                interfaces: vec![(s("org.bluez.Device1"), connected_device_map())],
            },
        ],
    };
    let (adapters, diags) = adapters_of_tree(&tree);
    assert_eq!(adapters.len() + diags.len(), 2);
    assert_eq!(adapters.len(), 1);
    assert_eq!(adapters[0].id, s("hci0"));
    assert_eq!(diags.len(), 1);
    assert_eq!(diags[0].key, s("Alias"));
}

#[test]
fn device_missing_connected_is_excluded() {
    let mut map = connected_device_map();
    map.entries.retain(|(k, _)| k != "Connected");
    let tree = RegistryTree {
        objects: vec![ObjectEntry {
            path: s("/org/bluez/hci0/dev_11_22_33_44_55_66"),
            interfaces: vec![(s("org.bluez.Device1"), map)],
        }],
    };
    let (devices, diags) = devices_of_tree(&tree);
    assert!(devices.is_empty());
    assert_eq!(diags.len(), 1);
    assert_eq!(diags[0].key, s("Connected"));
}

#[test]
fn devices_come_back_in_snapshot_order() {
    let mut second = connected_device_map();
    second.entries[0].1 = AttrValue::Str(s("77:88:99:AA:BB:CC"));
    let tree = RegistryTree {
        objects: vec![
            ObjectEntry {
                path: s("/org/bluez/hci0/dev_11_22_33_44_55_66"),
                interfaces: vec![(s("org.bluez.Device1"), connected_device_map())],
            },
            ObjectEntry {
                path: s("/org/bluez/hci0/dev_77_88_99_AA_BB_CC"),
                interfaces: vec![(s("org.bluez.Device1"), second)],
            },
        ],
    };
    let (devices, diags) = devices_of_tree(&tree);
    assert!(diags.is_empty());
    assert_eq!(devices.len(), 2);
    assert_eq!(devices[0].address, s("11:22:33:44:55:66"));
    assert_eq!(devices[1].address, s("77:88:99:AA:BB:CC"));
}

#[test]
fn one_object_may_expose_both_interfaces() {
    let tree = RegistryTree {
        objects: vec![ObjectEntry {
            path: s("/org/bluez/hci0"),
            interfaces: vec![
                (s("org.bluez.Adapter1"), hci0_adapter_map()),
                (s("org.bluez.Device1"), connected_device_map()),
            ],
        }],
    };
    let (adapters, adiags) = adapters_of_tree(&tree);
    let (devices, ddiags) = devices_of_tree(&tree);
    assert_eq!(adapters.len(), 1);
    assert!(adiags.is_empty());
    assert_eq!(devices.len(), 1);
    assert!(ddiags.is_empty());
}

#[test]
fn empty_tree_yields_nothing() {
    let tree = RegistryTree { objects: vec![] };
    let (adapters, adiags) = adapters_of_tree(&tree);
    let (devices, ddiags) = devices_of_tree(&tree);
    assert!(adapters.is_empty());
    assert!(adiags.is_empty());
    assert!(devices.is_empty());
    assert!(ddiags.is_empty());
}
