//! The remote object registry tree and its typed projections.
//!
//! A registry snapshot maps object paths to interface-scoped attribute maps.
//! `adapters_of_tree` and `devices_of_tree` project the snapshot onto typed
//! records: objects that do not expose the interface are passed over
//! silently; objects that expose it but fail to decode are skipped, each
//! leaving one diagnostic, so that one malformed object never aborts the
//! batch.

use vstd::prelude::*;

use crate::attrs::AttrMap;
use crate::attrs::AttrType;
use crate::attrs::AttrValue;
use crate::attrs::MissingAttribute;
use crate::attrs::assoc;
use crate::attrs::find_key;
use crate::records::Adapter;
use crate::records::AdapterView;
use crate::records::Device;
use crate::records::DeviceView;
use crate::records::adapter_missing;
use crate::records::device_missing;
use crate::records::spec_adapter;
use crate::records::spec_device;

verus! {

/// One remote object: its path and its interfaces' attribute maps.
pub struct ObjectEntry {
    pub path: String,
    pub interfaces: Vec<(String, AttrMap)>,
}

/// A full registry snapshot, fresh from one query; never cached.
pub struct RegistryTree {
    pub objects: Vec<ObjectEntry>,
}

/// The well-known name of the bus service that owns the registry.
pub fn service_name() -> (r: &'static str)
    ensures
        r@ == "org.bluez"@,
{
    "org.bluez"
}

/// The interface under which an object exposes adapter attributes.
pub open spec fn adapter_interface() -> Seq<char> {
    "org.bluez.Adapter1"@
}

/// The interface under which an object exposes device attributes.
pub open spec fn device_interface() -> Seq<char> {
    "org.bluez.Device1"@
}

/// Exec counterpart of [`adapter_interface`].
pub fn adapter_interface_name() -> (r: &'static str)
    ensures
        r@ == adapter_interface(),
{
    "org.bluez.Adapter1"
}

/// Exec counterpart of [`device_interface`].
pub fn device_interface_name() -> (r: &'static str)
    ensures
        r@ == device_interface(),
{
    "org.bluez.Device1"
}

/// The adapters and diagnostics that a snapshot projects to, in snapshot
/// order: per object exposing the adapter interface, either one adapter or
/// one diagnostic naming the first field that failed to decode.
pub open spec fn spec_adapters_of(objs: Seq<ObjectEntry>) -> (Seq<AdapterView>, Seq<
    (Seq<char>, AttrType),
>)
    decreases objs.len(),
{
    if objs.len() == 0 {
        (Seq::empty(), Seq::empty())
    } else {
        let rest = spec_adapters_of(objs.drop_first());
        match assoc(objs[0].interfaces@, adapter_interface()) {
            Option::None => rest,
            Option::Some(m) => match adapter_missing(m@) {
                Option::None => (seq![spec_adapter(objs[0].path@, m@)] + rest.0, rest.1),
                Option::Some(miss) => (rest.0, seq![miss] + rest.1),
            },
        }
    }
}

/// The devices and diagnostics that a snapshot projects to, in snapshot
/// order.
pub open spec fn spec_devices_of(objs: Seq<ObjectEntry>) -> (Seq<DeviceView>, Seq<
    (Seq<char>, AttrType),
>)
    decreases objs.len(),
{
    if objs.len() == 0 {
        (Seq::empty(), Seq::empty())
    } else {
        let rest = spec_devices_of(objs.drop_first());
        match assoc(objs[0].interfaces@, device_interface()) {
            Option::None => rest,
            Option::Some(m) => match device_missing(m@) {
                Option::None => (seq![spec_device(m@)] + rest.0, rest.1),
                Option::Some(miss) => (rest.0, seq![miss] + rest.1),
            },
        }
    }
}

/// How many objects of the snapshot expose the given interface.
pub open spec fn count_with_interface(objs: Seq<ObjectEntry>, iface: Seq<char>) -> nat
    decreases objs.len(),
{
    if objs.len() == 0 {
        0
    } else {
        (if assoc(objs[0].interfaces@, iface) is Some {
            1nat
        } else {
            0nat
        }) + count_with_interface(objs.drop_first(), iface)
    }
}

/// Filtering by the adapter interface accounts for every candidate and no
/// other: an object without the interface key contributes nothing, and every
/// object with it is attempted, yielding exactly one adapter or one
/// diagnostic.
pub proof fn lemma_adapter_filter_accounts_for_candidates(objs: Seq<ObjectEntry>)
    ensures
        spec_adapters_of(objs).0.len() + spec_adapters_of(objs).1.len() == count_with_interface(
            objs,
            adapter_interface(),
        ),
    decreases objs.len(),
{
    if objs.len() > 0 {
        lemma_adapter_filter_accounts_for_candidates(objs.drop_first());
    }
}

/// Filtering by the device interface accounts for every candidate and no
/// other, as [`lemma_adapter_filter_accounts_for_candidates`] does for
/// adapters.
pub proof fn lemma_device_filter_accounts_for_candidates(objs: Seq<ObjectEntry>)
    ensures
        spec_devices_of(objs).0.len() + spec_devices_of(objs).1.len() == count_with_interface(
            objs,
            device_interface(),
        ),
    decreases objs.len(),
{
    if objs.len() > 0 {
        lemma_device_filter_accounts_for_candidates(objs.drop_first());
    }
}

/// Projects a snapshot onto adapter records, skipping each object that fails
/// to decode and recording one diagnostic for it.
pub fn adapters_of_tree(tree: &RegistryTree) -> (r: (Vec<Adapter>, Vec<MissingAttribute>))
    ensures
        r.0@.map_values(|a: Adapter| a@) == spec_adapters_of(tree.objects@).0,
        r.1@.map_values(|e: MissingAttribute| (e.key@, e.expected)) == spec_adapters_of(
            tree.objects@,
        ).1,
{
    let iface: String = adapter_interface_name().to_owned();
    let mut adapters: Vec<Adapter> = Vec::new();
    let mut diags: Vec<MissingAttribute> = Vec::new();
    let mut i: usize = 0;
    let ghost objs = tree.objects@;
    assert(objs.skip(0) =~= objs);
    while i < tree.objects.len()
        invariant
            i <= objs.len(),
            objs == tree.objects@,
            iface@ == adapter_interface(),
            adapters@.map_values(|a: Adapter| a@) + spec_adapters_of(objs.skip(i as int)).0
                =~= spec_adapters_of(objs).0,
            diags@.map_values(|e: MissingAttribute| (e.key@, e.expected)) + spec_adapters_of(
                objs.skip(i as int),
            ).1 =~= spec_adapters_of(objs).1,
        decreases objs.len() - i,
    {
        let ghost suffix = objs.skip(i as int);
        assert(suffix[0] == objs[i as int]);
        assert(suffix.drop_first() =~= objs.skip(i as int + 1));
        let obj = &tree.objects[i];
        match find_key(&obj.interfaces, &iface) {
            Some(j) => {
                let m = &obj.interfaces[j].1;
                match Adapter::from(obj.path.as_str(), m) {
                    Ok(a) => {
                        let ghost prev = adapters@;
                        adapters.push(a);
                        assert(adapters@.map_values(|x: Adapter| x@) =~= prev.map_values(
                            |x: Adapter| x@,
                        ).push(a@));
                    },
                    Err(e) => {
                        let ghost prev = diags@;
                        diags.push(e);
                        assert(diags@.map_values(|x: MissingAttribute| (x.key@, x.expected))
                            =~= prev.map_values(|x: MissingAttribute| (x.key@, x.expected)).push(
                            (e.key@, e.expected),
                        ));
                    },
                }
            },
            None => {
            },
        }
        i = i + 1;
    }
    assert(objs.skip(i as int) =~= Seq::<ObjectEntry>::empty());
    (adapters, diags)
}

/// Projects a snapshot onto device records, skipping each object that fails
/// to decode and recording one diagnostic for it.
pub fn devices_of_tree(tree: &RegistryTree) -> (r: (Vec<Device>, Vec<MissingAttribute>))
    ensures
        r.0@.map_values(|d: Device| d@) == spec_devices_of(tree.objects@).0,
        r.1@.map_values(|e: MissingAttribute| (e.key@, e.expected)) == spec_devices_of(
            tree.objects@,
        ).1,
{
    let iface: String = device_interface_name().to_owned();
    let mut devices: Vec<Device> = Vec::new();
    let mut diags: Vec<MissingAttribute> = Vec::new();
    let mut i: usize = 0;
    let ghost objs = tree.objects@;
    assert(objs.skip(0) =~= objs);
    while i < tree.objects.len()
        invariant
            i <= objs.len(),
            objs == tree.objects@,
            iface@ == device_interface(),
            devices@.map_values(|d: Device| d@) + spec_devices_of(objs.skip(i as int)).0
                =~= spec_devices_of(objs).0,
            diags@.map_values(|e: MissingAttribute| (e.key@, e.expected)) + spec_devices_of(
                objs.skip(i as int),
            ).1 =~= spec_devices_of(objs).1,
        decreases objs.len() - i,
    {
        let ghost suffix = objs.skip(i as int);
        assert(suffix[0] == objs[i as int]);
        assert(suffix.drop_first() =~= objs.skip(i as int + 1));
        let obj = &tree.objects[i];
        match find_key(&obj.interfaces, &iface) {
            Some(j) => {
                let m = &obj.interfaces[j].1;
                match Device::from(obj.path.as_str(), m) {
                    Ok(d) => {
                        let ghost prev = devices@;
                        devices.push(d);
                        assert(devices@.map_values(|x: Device| x@) =~= prev.map_values(
                            |x: Device| x@,
                        ).push(d@));
                    },
                    Err(e) => {
                        let ghost prev = diags@;
                        diags.push(e);
                        assert(diags@.map_values(|x: MissingAttribute| (x.key@, x.expected))
                            =~= prev.map_values(|x: MissingAttribute| (x.key@, x.expected)).push(
                            (e.key@, e.expected),
                        ));
                    },
                }
            },
            None => {
            },
        }
        i = i + 1;
    }
    assert(objs.skip(i as int) =~= Seq::<ObjectEntry>::empty());
    (devices, diags)
}

} // verus!
