//! Typed domain records projected out of raw attribute maps.
//!
//! `Adapter::from` and `Device::from` are pure, all-or-nothing builders:
//! every listed field is required, and the first field that is absent or
//! mistyped aborts the construction with a `MissingAttribute` naming it.
//! The adapter identifier is the object path with the service-root prefix
//! stripped; a path without that prefix passes through unchanged.

use vstd::prelude::*;

use crate::attrs::AttrMap;
use crate::attrs::AttrType;
use crate::attrs::AttrValue;
use crate::attrs::MissingAttribute;
use crate::attrs::spec_get_bool;
use crate::attrs::spec_get_i16;
use crate::attrs::spec_get_str;
use crate::attrs::spec_get_str_seq;
use crate::attrs::spec_get_u16;
use crate::attrs::spec_get_u32;

verus! {

/// A local radio controller, decoded from one object's adapter interface.
#[derive(Debug)]
pub struct Adapter {
    pub id: String,
    pub address: String,
    pub address_type: String,
    pub name: String,
    pub alias: String,
    pub class: u32,
    pub powered: bool,
    pub discoverable: bool,
    pub discoverable_timeout: u32,
    pub pairable: bool,
    pub pairable_timeout: u32,
    pub discovering: bool,
    pub modalias: String,
    pub uuids: Vec<String>,
}

/// Mathematical image of an `Adapter`: every string as its character
/// sequence.
#[verifier::ext_equal]
pub struct AdapterView {
    pub id: Seq<char>,
    pub address: Seq<char>,
    pub address_type: Seq<char>,
    pub name: Seq<char>,
    pub alias: Seq<char>,
    pub class: u32,
    pub powered: bool,
    pub discoverable: bool,
    pub discoverable_timeout: u32,
    pub pairable: bool,
    pub pairable_timeout: u32,
    pub discovering: bool,
    pub modalias: Seq<char>,
    pub uuids: Seq<Seq<char>>,
}

impl View for Adapter {
    type V = AdapterView;

    open spec fn view(&self) -> AdapterView {
        AdapterView {
            id: self.id@,
            address: self.address@,
            address_type: self.address_type@,
            name: self.name@,
            alias: self.alias@,
            class: self.class,
            powered: self.powered,
            discoverable: self.discoverable,
            discoverable_timeout: self.discoverable_timeout,
            pairable: self.pairable,
            pairable_timeout: self.pairable_timeout,
            discovering: self.discovering,
            modalias: self.modalias@,
            uuids: self.uuids.deep_view(),
        }
    }
}

/// A remote peer, decoded from one object's device interface. This is a
/// deliberately reduced projection: attributes such as name, alias, class,
/// RSSI or the owning adapter stay on the wire undecoded.
#[derive(Debug)]
pub struct Device {
    pub address: String,
    pub paired: bool,
    pub trusted: bool,
    pub blocked: bool,
    pub legacy_pairing: bool,
    pub connected: bool,
    pub uuids: Vec<String>,
    pub services_resolved: bool,
}

/// Mathematical image of a `Device`.
#[verifier::ext_equal]
pub struct DeviceView {
    pub address: Seq<char>,
    pub paired: bool,
    pub trusted: bool,
    pub blocked: bool,
    pub legacy_pairing: bool,
    pub connected: bool,
    pub uuids: Seq<Seq<char>>,
    pub services_resolved: bool,
}

impl View for Device {
    type V = DeviceView;

    open spec fn view(&self) -> DeviceView {
        DeviceView {
            address: self.address@,
            paired: self.paired,
            trusted: self.trusted,
            blocked: self.blocked,
            legacy_pairing: self.legacy_pairing,
            connected: self.connected,
            uuids: self.uuids.deep_view(),
            services_resolved: self.services_resolved,
        }
    }
}

/// The prefix stripped from an adapter's object path to form its identifier.
pub open spec fn service_root_prefix() -> Seq<char> {
    "/org/bluez/"@
}

/// The adapter identifier derived from an object path: the path with the
/// service-root prefix stripped, or the raw path when the prefix is absent.
pub open spec fn spec_adapter_id(path: Seq<char>) -> Seq<char> {
    if path.len() >= service_root_prefix().len() && path.subrange(
        0,
        service_root_prefix().len() as int,
    ) == service_root_prefix() {
        path.subrange(service_root_prefix().len() as int, path.len() as int)
    } else {
        path
    }
}

/// Derives the adapter identifier from an object path.
pub fn adapter_id_of_path(path: &str) -> (r: String)
    ensures
        r@ == spec_adapter_id(path@),
{
    proof {
        reveal_strlit("/org/bluez/");
    }
    let prefix: &str = "/org/bluez/";
    let n = path.unicode_len();
    if n < 11 {
        return path.to_owned();
    }
    let mut i: usize = 0;
    while i < 11
        invariant
            i <= 11,
            n as nat == path@.len(),
            n >= 11,
            prefix@ == service_root_prefix(),
            prefix@.len() == 11,
            forall|j: int| 0 <= j < i ==> path@[j] == prefix@[j],
        decreases 11 - i,
    {
        if path.get_char(i) != prefix.get_char(i) {
            proof {
                let sub = path@.subrange(0, 11);
                assert(sub[i as int] == path@[i as int]);
                assert(sub != service_root_prefix()) by {
                    if sub == service_root_prefix() {
                        assert(sub[i as int] == service_root_prefix()[i as int]);
                    }
                }
            }
            return path.to_owned();
        }
        i = i + 1;
    }
    assert(path@.subrange(0, 11) =~= service_root_prefix());
    let rest = path.substring_char(11, n);
    rest.to_owned()
}

/// Whether the typed read of `key` as `want` succeeds on `m`.
pub open spec fn field_present(
    m: Seq<(String, AttrValue)>,
    key: Seq<char>,
    want: AttrType,
) -> bool {
    match want {
        AttrType::Str => spec_get_str(m, key) is Some,
        AttrType::Bool => spec_get_bool(m, key) is Some,
        AttrType::U16 => spec_get_u16(m, key) is Some,
        AttrType::U32 => spec_get_u32(m, key) is Some,
        AttrType::I16 => spec_get_i16(m, key) is Some,
        AttrType::StrSeq => spec_get_str_seq(m, key) is Some,
    }
}

/// The adapter's required fields: key and expected dynamic type.
pub open spec fn adapter_required_field(key: Seq<char>, want: AttrType) -> bool {
    ||| (key == "Address"@ && want == AttrType::Str)
    ||| (key == "AddressType"@ && want == AttrType::Str)
    ||| (key == "Name"@ && want == AttrType::Str)
    ||| (key == "Alias"@ && want == AttrType::Str)
    ||| (key == "Class"@ && want == AttrType::U32)
    ||| (key == "Powered"@ && want == AttrType::Bool)
    ||| (key == "Discoverable"@ && want == AttrType::Bool)
    ||| (key == "DiscoverableTimeout"@ && want == AttrType::U32)
    ||| (key == "Pairable"@ && want == AttrType::Bool)
    ||| (key == "PairableTimeout"@ && want == AttrType::U32)
    ||| (key == "Discovering"@ && want == AttrType::Bool)
    ||| (key == "Modalias"@ && want == AttrType::Str)
    ||| (key == "UUIDs"@ && want == AttrType::StrSeq)
}

/// The first required adapter field, in declaration order, whose typed read
/// fails on `m`; `None` when the whole record can be built.
pub open spec fn adapter_missing(m: Seq<(String, AttrValue)>) -> Option<(Seq<char>, AttrType)> {
    if spec_get_str(m, "Address"@) is None {
        Some(("Address"@, AttrType::Str))
    } else if spec_get_str(m, "AddressType"@) is None {
        Some(("AddressType"@, AttrType::Str))
    } else if spec_get_str(m, "Name"@) is None {
        Some(("Name"@, AttrType::Str))
    } else if spec_get_str(m, "Alias"@) is None {
        Some(("Alias"@, AttrType::Str))
    } else if spec_get_u32(m, "Class"@) is None {
        Some(("Class"@, AttrType::U32))
    } else if spec_get_bool(m, "Powered"@) is None {
        Some(("Powered"@, AttrType::Bool))
    } else if spec_get_bool(m, "Discoverable"@) is None {
        Some(("Discoverable"@, AttrType::Bool))
    } else if spec_get_u32(m, "DiscoverableTimeout"@) is None {
        Some(("DiscoverableTimeout"@, AttrType::U32))
    } else if spec_get_bool(m, "Pairable"@) is None {
        Some(("Pairable"@, AttrType::Bool))
    } else if spec_get_u32(m, "PairableTimeout"@) is None {
        Some(("PairableTimeout"@, AttrType::U32))
    } else if spec_get_bool(m, "Discovering"@) is None {
        Some(("Discovering"@, AttrType::Bool))
    } else if spec_get_str(m, "Modalias"@) is None {
        Some(("Modalias"@, AttrType::Str))
    } else if spec_get_str_seq(m, "UUIDs"@) is None {
        Some(("UUIDs"@, AttrType::StrSeq))
    } else {
        None
    }
}

/// The adapter a complete map decodes to; meaningful when
/// `adapter_missing(m)` is `None`.
pub open spec fn spec_adapter(path: Seq<char>, m: Seq<(String, AttrValue)>) -> AdapterView {
    AdapterView {
        id: spec_adapter_id(path),
        address: spec_get_str(m, "Address"@)->Some_0,
        address_type: spec_get_str(m, "AddressType"@)->Some_0,
        name: spec_get_str(m, "Name"@)->Some_0,
        alias: spec_get_str(m, "Alias"@)->Some_0,
        class: spec_get_u32(m, "Class"@)->Some_0,
        powered: spec_get_bool(m, "Powered"@)->Some_0,
        discoverable: spec_get_bool(m, "Discoverable"@)->Some_0,
        discoverable_timeout: spec_get_u32(m, "DiscoverableTimeout"@)->Some_0,
        pairable: spec_get_bool(m, "Pairable"@)->Some_0,
        pairable_timeout: spec_get_u32(m, "PairableTimeout"@)->Some_0,
        discovering: spec_get_bool(m, "Discovering"@)->Some_0,
        modalias: spec_get_str(m, "Modalias"@)->Some_0,
        uuids: spec_get_str_seq(m, "UUIDs"@)->Some_0,
    }
}

impl Adapter {
    /// Builds an adapter record from an object path and its adapter
    /// interface's attribute map. Succeeds exactly when every required field
    /// decodes; otherwise fails naming the first field, in declaration
    /// order, that does not.
    pub fn from(path: &str, map: &AttrMap) -> (r: Result<Adapter, MissingAttribute>)
        ensures
            match r {
                Ok(a) => adapter_missing(map@) is None && a@ == spec_adapter(path@, map@),
                Err(e) => adapter_missing(map@) == Some((e.key@, e.expected)),
            },
    {
        let address = match map.require_str("Address") {
            Ok(v) => v,
            Err(e) => return Err(e),
        };
        let address_type = match map.require_str("AddressType") {
            Ok(v) => v,
            Err(e) => return Err(e),
        };
        let name = match map.require_str("Name") {
            Ok(v) => v,
            Err(e) => return Err(e),
        };
        let alias = match map.require_str("Alias") {
            Ok(v) => v,
            Err(e) => return Err(e),
        };
        let class = match map.require_u32("Class") {
            Ok(v) => v,
            Err(e) => return Err(e),
        };
        let powered = match map.require_bool("Powered") {
            Ok(v) => v,
            Err(e) => return Err(e),
        };
        let discoverable = match map.require_bool("Discoverable") {
            Ok(v) => v,
            Err(e) => return Err(e),
        };
        let discoverable_timeout = match map.require_u32("DiscoverableTimeout") {
            Ok(v) => v,
            Err(e) => return Err(e),
        };
        let pairable = match map.require_bool("Pairable") {
            Ok(v) => v,
            Err(e) => return Err(e),
        };
        let pairable_timeout = match map.require_u32("PairableTimeout") {
            Ok(v) => v,
            Err(e) => return Err(e),
        };
        let discovering = match map.require_bool("Discovering") {
            Ok(v) => v,
            Err(e) => return Err(e),
        };
        let modalias = match map.require_str("Modalias") {
            Ok(v) => v,
            Err(e) => return Err(e),
        };
        let uuids = match map.require_str_seq("UUIDs") {
            Ok(v) => v,
            Err(e) => return Err(e),
        };
        let a = Adapter {
            id: adapter_id_of_path(path),
            address,
            address_type,
            name,
            alias,
            class,
            powered,
            discoverable,
            discoverable_timeout,
            pairable,
            pairable_timeout,
            discovering,
            modalias,
            uuids,
        };
        assert(a@ =~= spec_adapter(path@, map@));
        Ok(a)
    }
}

/// The device's required fields: key and expected dynamic type.
pub open spec fn device_required_field(key: Seq<char>, want: AttrType) -> bool {
    ||| (key == "Address"@ && want == AttrType::Str)
    ||| (key == "Paired"@ && want == AttrType::Bool)
    ||| (key == "Trusted"@ && want == AttrType::Bool)
    ||| (key == "Blocked"@ && want == AttrType::Bool)
    ||| (key == "LegacyPairing"@ && want == AttrType::Bool)
    ||| (key == "Connected"@ && want == AttrType::Bool)
    ||| (key == "UUIDs"@ && want == AttrType::StrSeq)
    ||| (key == "ServicesResolved"@ && want == AttrType::Bool)
}

/// The first required device field, in declaration order, whose typed read
/// fails on `m`; `None` when the whole record can be built.
pub open spec fn device_missing(m: Seq<(String, AttrValue)>) -> Option<(Seq<char>, AttrType)> {
    if spec_get_str(m, "Address"@) is None {
        Some(("Address"@, AttrType::Str))
    } else if spec_get_bool(m, "Paired"@) is None {
        Some(("Paired"@, AttrType::Bool))
    } else if spec_get_bool(m, "Trusted"@) is None {
        Some(("Trusted"@, AttrType::Bool))
    } else if spec_get_bool(m, "Blocked"@) is None {
        Some(("Blocked"@, AttrType::Bool))
    } else if spec_get_bool(m, "LegacyPairing"@) is None {
        Some(("LegacyPairing"@, AttrType::Bool))
    } else if spec_get_bool(m, "Connected"@) is None {
        Some(("Connected"@, AttrType::Bool))
    } else if spec_get_str_seq(m, "UUIDs"@) is None {
        Some(("UUIDs"@, AttrType::StrSeq))
    } else if spec_get_bool(m, "ServicesResolved"@) is None {
        Some(("ServicesResolved"@, AttrType::Bool))
    } else {
        None
    }
}

/// The device a complete map decodes to; meaningful when
/// `device_missing(m)` is `None`.
pub open spec fn spec_device(m: Seq<(String, AttrValue)>) -> DeviceView {
    DeviceView {
        address: spec_get_str(m, "Address"@)->Some_0,
        paired: spec_get_bool(m, "Paired"@)->Some_0,
        trusted: spec_get_bool(m, "Trusted"@)->Some_0,
        blocked: spec_get_bool(m, "Blocked"@)->Some_0,
        legacy_pairing: spec_get_bool(m, "LegacyPairing"@)->Some_0,
        connected: spec_get_bool(m, "Connected"@)->Some_0,
        uuids: spec_get_str_seq(m, "UUIDs"@)->Some_0,
        services_resolved: spec_get_bool(m, "ServicesResolved"@)->Some_0,
    }
}

impl Device {
    /// Builds a device record from an object path and its device interface's
    /// attribute map. The path is accepted for interface symmetry with
    /// `Adapter::from` but no identifier is derived from it. Succeeds exactly
    /// when every required field decodes; otherwise fails naming the first
    /// field, in declaration order, that does not.
    pub fn from(path: &str, map: &AttrMap) -> (r: Result<Device, MissingAttribute>)
        ensures
            match r {
                Ok(d) => device_missing(map@) is None && d@ == spec_device(map@),
                Err(e) => device_missing(map@) == Some((e.key@, e.expected)),
            },
    {
        let _ = path;
        let address = match map.require_str("Address") {
            Ok(v) => v,
            Err(e) => return Err(e),
        };
        let paired = match map.require_bool("Paired") {
            Ok(v) => v,
            Err(e) => return Err(e),
        };
        let trusted = match map.require_bool("Trusted") {
            Ok(v) => v,
            Err(e) => return Err(e),
        };
        let blocked = match map.require_bool("Blocked") {
            Ok(v) => v,
            Err(e) => return Err(e),
        };
        let legacy_pairing = match map.require_bool("LegacyPairing") {
            Ok(v) => v,
            Err(e) => return Err(e),
        };
        let connected = match map.require_bool("Connected") {
            Ok(v) => v,
            Err(e) => return Err(e),
        };
        let uuids = match map.require_str_seq("UUIDs") {
            Ok(v) => v,
            Err(e) => return Err(e),
        };
        let services_resolved = match map.require_bool("ServicesResolved") {
            Ok(v) => v,
            Err(e) => return Err(e),
        };
        let d = Device {
            address,
            paired,
            trusted,
            blocked,
            legacy_pairing,
            connected,
            uuids,
            services_resolved,
        };
        assert(d@ =~= spec_device(map@));
        Ok(d)
    }
}

/// A map holding every required adapter field with the right dynamic type
/// decodes to an adapter whose every field equals the corresponding input
/// attribute exactly; only the identifier is transformed, by stripping the
/// service-root prefix from the object path.
pub proof fn lemma_adapter_complete_map_decodes(path: Seq<char>, m: Seq<(String, AttrValue)>)
    requires
        forall|k: Seq<char>, w: AttrType| adapter_required_field(k, w) ==> #[trigger] field_present(
            m,
            k,
            w,
        ),
    ensures
        adapter_missing(m) is None,
        spec_adapter(path, m).id == spec_adapter_id(path),
        spec_adapter(path, m).address == spec_get_str(m, "Address"@)->Some_0,
        spec_adapter(path, m).address_type == spec_get_str(m, "AddressType"@)->Some_0,
        spec_adapter(path, m).name == spec_get_str(m, "Name"@)->Some_0,
        spec_adapter(path, m).alias == spec_get_str(m, "Alias"@)->Some_0,
        spec_adapter(path, m).class == spec_get_u32(m, "Class"@)->Some_0,
        spec_adapter(path, m).powered == spec_get_bool(m, "Powered"@)->Some_0,
        spec_adapter(path, m).discoverable == spec_get_bool(m, "Discoverable"@)->Some_0,
        spec_adapter(path, m).discoverable_timeout == spec_get_u32(
            m,
            "DiscoverableTimeout"@,
        )->Some_0,
        spec_adapter(path, m).pairable == spec_get_bool(m, "Pairable"@)->Some_0,
        spec_adapter(path, m).pairable_timeout == spec_get_u32(m, "PairableTimeout"@)->Some_0,
        spec_adapter(path, m).discovering == spec_get_bool(m, "Discovering"@)->Some_0,
        spec_adapter(path, m).modalias == spec_get_str(m, "Modalias"@)->Some_0,
        spec_adapter(path, m).uuids == spec_get_str_seq(m, "UUIDs"@)->Some_0,
{
    assert(field_present(m, "Address"@, AttrType::Str));
    assert(field_present(m, "AddressType"@, AttrType::Str));
    assert(field_present(m, "Name"@, AttrType::Str));
    assert(field_present(m, "Alias"@, AttrType::Str));
    assert(field_present(m, "Class"@, AttrType::U32));
    assert(field_present(m, "Powered"@, AttrType::Bool));
    assert(field_present(m, "Discoverable"@, AttrType::Bool));
    assert(field_present(m, "DiscoverableTimeout"@, AttrType::U32));
    assert(field_present(m, "Pairable"@, AttrType::Bool));
    assert(field_present(m, "PairableTimeout"@, AttrType::U32));
    assert(field_present(m, "Discovering"@, AttrType::Bool));
    assert(field_present(m, "Modalias"@, AttrType::Str));
    assert(field_present(m, "UUIDs"@, AttrType::StrSeq));
}

/// When exactly one required adapter field fails its typed read, the adapter
/// construction fails naming precisely that field, whatever the rest of the
/// map holds.
pub proof fn lemma_adapter_single_missing_named(
    m: Seq<(String, AttrValue)>,
    key: Seq<char>,
    want: AttrType,
)
    requires
        adapter_required_field(key, want),
        !field_present(m, key, want),
        forall|k: Seq<char>, w: AttrType|
            adapter_required_field(k, w) && !(k == key && w == want)
                ==> #[trigger] field_present(m, k, w),
    ensures
        adapter_missing(m) == Some((key, want)),
{
    assert(field_present(m, "Address"@, AttrType::Str) || ("Address"@ == key && AttrType::Str
        == want));
    assert(field_present(m, "AddressType"@, AttrType::Str) || ("AddressType"@ == key
        && AttrType::Str == want));
    assert(field_present(m, "Name"@, AttrType::Str) || ("Name"@ == key && AttrType::Str == want));
    assert(field_present(m, "Alias"@, AttrType::Str) || ("Alias"@ == key && AttrType::Str == want));
    assert(field_present(m, "Class"@, AttrType::U32) || ("Class"@ == key && AttrType::U32 == want));
    assert(field_present(m, "Powered"@, AttrType::Bool) || ("Powered"@ == key && AttrType::Bool
        == want));
    assert(field_present(m, "Discoverable"@, AttrType::Bool) || ("Discoverable"@ == key
        && AttrType::Bool == want));
    assert(field_present(m, "DiscoverableTimeout"@, AttrType::U32) || ("DiscoverableTimeout"@
        == key && AttrType::U32 == want));
    assert(field_present(m, "Pairable"@, AttrType::Bool) || ("Pairable"@ == key && AttrType::Bool
        == want));
    assert(field_present(m, "PairableTimeout"@, AttrType::U32) || ("PairableTimeout"@ == key
        && AttrType::U32 == want));
    assert(field_present(m, "Discovering"@, AttrType::Bool) || ("Discovering"@ == key
        && AttrType::Bool == want));
    assert(field_present(m, "Modalias"@, AttrType::Str) || ("Modalias"@ == key && AttrType::Str
        == want));
    assert(field_present(m, "UUIDs"@, AttrType::StrSeq) || ("UUIDs"@ == key && AttrType::StrSeq
        == want));
}

/// A map holding every required device field decodes to a device whose every
/// field equals the corresponding input attribute exactly.
pub proof fn lemma_device_complete_map_decodes(m: Seq<(String, AttrValue)>)
    requires
        forall|k: Seq<char>, w: AttrType| device_required_field(k, w) ==> #[trigger] field_present(
            m,
            k,
            w,
        ),
    ensures
        device_missing(m) is None,
        spec_device(m).address == spec_get_str(m, "Address"@)->Some_0,
        spec_device(m).paired == spec_get_bool(m, "Paired"@)->Some_0,
        spec_device(m).trusted == spec_get_bool(m, "Trusted"@)->Some_0,
        spec_device(m).blocked == spec_get_bool(m, "Blocked"@)->Some_0,
        spec_device(m).legacy_pairing == spec_get_bool(m, "LegacyPairing"@)->Some_0,
        spec_device(m).connected == spec_get_bool(m, "Connected"@)->Some_0,
        spec_device(m).uuids == spec_get_str_seq(m, "UUIDs"@)->Some_0,
        spec_device(m).services_resolved == spec_get_bool(m, "ServicesResolved"@)->Some_0,
{
    assert(field_present(m, "Address"@, AttrType::Str));
    assert(field_present(m, "Paired"@, AttrType::Bool));
    assert(field_present(m, "Trusted"@, AttrType::Bool));
    assert(field_present(m, "Blocked"@, AttrType::Bool));
    assert(field_present(m, "LegacyPairing"@, AttrType::Bool));
    assert(field_present(m, "Connected"@, AttrType::Bool));
    assert(field_present(m, "UUIDs"@, AttrType::StrSeq));
    assert(field_present(m, "ServicesResolved"@, AttrType::Bool));
}

/// When exactly one required device field fails its typed read, the device
/// construction fails naming precisely that field.
pub proof fn lemma_device_single_missing_named(
    m: Seq<(String, AttrValue)>,
    key: Seq<char>,
    want: AttrType,
)
    requires
        device_required_field(key, want),
        !field_present(m, key, want),
        forall|k: Seq<char>, w: AttrType|
            device_required_field(k, w) && !(k == key && w == want) ==> #[trigger] field_present(
                m,
                k,
                w,
            ),
    ensures
        device_missing(m) == Some((key, want)),
{
    assert(field_present(m, "Address"@, AttrType::Str) || ("Address"@ == key && AttrType::Str
        == want));
    assert(field_present(m, "Paired"@, AttrType::Bool) || ("Paired"@ == key && AttrType::Bool
        == want));
    assert(field_present(m, "Trusted"@, AttrType::Bool) || ("Trusted"@ == key && AttrType::Bool
        == want));
    assert(field_present(m, "Blocked"@, AttrType::Bool) || ("Blocked"@ == key && AttrType::Bool
        == want));
    assert(field_present(m, "LegacyPairing"@, AttrType::Bool) || ("LegacyPairing"@ == key
        && AttrType::Bool == want));
    assert(field_present(m, "Connected"@, AttrType::Bool) || ("Connected"@ == key && AttrType::Bool
        == want));
    assert(field_present(m, "UUIDs"@, AttrType::StrSeq) || ("UUIDs"@ == key && AttrType::StrSeq
        == want));
    assert(field_present(m, "ServicesResolved"@, AttrType::Bool) || ("ServicesResolved"@ == key
        && AttrType::Bool == want));
}

/// Construction reads the map only through the typed decoders: two maps whose
/// typed reads agree on every required adapter field decode identically. In
/// particular a field bound to a value of the wrong dynamic type, whose typed
/// read is `None`, behaves exactly as a field that is absent.
pub proof fn lemma_adapter_construction_typed_reads_only(
    path: Seq<char>,
    m1: Seq<(String, AttrValue)>,
    m2: Seq<(String, AttrValue)>,
)
    requires
        spec_get_str(m1, "Address"@) == spec_get_str(m2, "Address"@),
        spec_get_str(m1, "AddressType"@) == spec_get_str(m2, "AddressType"@),
        spec_get_str(m1, "Name"@) == spec_get_str(m2, "Name"@),
        spec_get_str(m1, "Alias"@) == spec_get_str(m2, "Alias"@),
        spec_get_u32(m1, "Class"@) == spec_get_u32(m2, "Class"@),
        spec_get_bool(m1, "Powered"@) == spec_get_bool(m2, "Powered"@),
        spec_get_bool(m1, "Discoverable"@) == spec_get_bool(m2, "Discoverable"@),
        spec_get_u32(m1, "DiscoverableTimeout"@) == spec_get_u32(m2, "DiscoverableTimeout"@),
        spec_get_bool(m1, "Pairable"@) == spec_get_bool(m2, "Pairable"@),
        spec_get_u32(m1, "PairableTimeout"@) == spec_get_u32(m2, "PairableTimeout"@),
        spec_get_bool(m1, "Discovering"@) == spec_get_bool(m2, "Discovering"@),
        spec_get_str(m1, "Modalias"@) == spec_get_str(m2, "Modalias"@),
        spec_get_str_seq(m1, "UUIDs"@) == spec_get_str_seq(m2, "UUIDs"@),
    ensures
        adapter_missing(m1) == adapter_missing(m2),
        adapter_missing(m1) is None ==> spec_adapter(path, m1) == spec_adapter(path, m2),
{
    if adapter_missing(m1) is None {
        assert(spec_adapter(path, m1) =~= spec_adapter(path, m2));
    }
}

/// Construction reads the map only through the typed decoders: two maps whose
/// typed reads agree on every required device field decode identically.
pub proof fn lemma_device_construction_typed_reads_only(
    m1: Seq<(String, AttrValue)>,
    m2: Seq<(String, AttrValue)>,
)
    requires
        spec_get_str(m1, "Address"@) == spec_get_str(m2, "Address"@),
        spec_get_bool(m1, "Paired"@) == spec_get_bool(m2, "Paired"@),
        spec_get_bool(m1, "Trusted"@) == spec_get_bool(m2, "Trusted"@),
        spec_get_bool(m1, "Blocked"@) == spec_get_bool(m2, "Blocked"@),
        spec_get_bool(m1, "LegacyPairing"@) == spec_get_bool(m2, "LegacyPairing"@),
        spec_get_bool(m1, "Connected"@) == spec_get_bool(m2, "Connected"@),
        spec_get_str_seq(m1, "UUIDs"@) == spec_get_str_seq(m2, "UUIDs"@),
        spec_get_bool(m1, "ServicesResolved"@) == spec_get_bool(m2, "ServicesResolved"@),
    ensures
        device_missing(m1) == device_missing(m2),
        device_missing(m1) is None ==> spec_device(m1) == spec_device(m2),
{
    if device_missing(m1) is None {
        assert(spec_device(m1) =~= spec_device(m2));
    }
}

} // verus!
