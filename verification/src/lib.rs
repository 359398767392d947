//! Typed projection of a remote object registry and a timed discovery
//! session, as exposed by the BlueZ service over the system bus.
//!
//! The library is the verified core: it decodes dynamically typed attribute
//! maps into `Adapter` and `Device` records, filters a registry tree by
//! interface name, and models the discovery-session state machine. All bus
//! I/O lives outside the library and hands it plain values.

pub mod attrs;
pub mod records;
pub mod registry;
pub mod report;
pub mod session;
