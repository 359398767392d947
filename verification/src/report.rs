//! Data selection for the report sink.
//!
//! Rendering itself is outside the library; what is selected for display is
//! part of the contract: an adapter shows its name alone, a device shows its
//! address and an on/off token derived from its connected flag.

use vstd::prelude::*;

use crate::records::Adapter;
use crate::records::Device;

verus! {

/// The token a device's connected flag displays as.
pub open spec fn spec_connected_token(connected: bool) -> Seq<char> {
    if connected {
        "on"@
    } else {
        "off"@
    }
}

/// Exec counterpart of [`spec_connected_token`].
pub fn connected_token(connected: bool) -> (r: &'static str)
    ensures
        r@ == spec_connected_token(connected),
{
    if connected {
        "on"
    } else {
        "off"
    }
}

/// What one adapter line displays: the adapter's name.
pub fn adapter_line(a: &Adapter) -> (r: String)
    ensures
        r@ == a@.name,
{
    a.name.clone()
}

/// What one device line displays: the device's address and its on/off token.
pub fn device_line(d: &Device) -> (r: (String, &'static str))
    ensures
        r.0@ == d@.address,
        r.1@ == spec_connected_token(d@.connected),
{
    (d.address.clone(), connected_token(d.connected))
}

} // verus!
