//! A typed client library for the BlueZ Bluetooth daemon.
//!
//! BlueZ publishes adapters, remote devices, GATT services, characteristics,
//! descriptors and OBEX transfers as a tree of remote objects on the system
//! bus.  This crate models that object graph and the messages exchanged with
//! the daemon as plain data: property reads are lookups in a snapshot of the
//! daemon's published objects, and property writes and method invocations are
//! built as value-level bus requests that a thin transport layer performs.

use vstd::prelude::*;

pub use bluetooth_adapter::BluetoothAdapter;
pub use bluetooth_device::BluetoothDevice;
pub use bluetooth_discovery_session::BluetoothDiscoverySession;
pub use bluetooth_event::BluetoothEvent;
pub use bluetooth_gatt_characteristic::BluetoothGATTCharacteristic;
pub use bluetooth_gatt_descriptor::BluetoothGATTDescriptor;
pub use bluetooth_gatt_service::BluetoothGATTService;
pub use bluetooth_obex::BluetoothOBEXSession;
pub use bluetooth_session::BluetoothSession;

pub mod bluetooth_adapter;
pub mod bluetooth_device;
pub mod bluetooth_discovery_session;
pub mod bluetooth_event;
pub mod bluetooth_gatt_characteristic;
pub mod bluetooth_gatt_descriptor;
pub mod bluetooth_gatt_service;
pub mod bluetooth_obex;
pub mod bluetooth_session;
pub mod bluetooth_utils;
pub mod bus_types;

verus! {

/// The error surface shared by every operation of the library.
#[derive(Debug, Clone, PartialEq, Eq)]
pub enum BlurzError {
    /// A failure at the bus level: a call that the daemon rejected, a missing
    /// object or property, or a value published with an unexpected type.
    BusError(String),
    /// No adapter was enumerated, or a named path is not an adapter.
    AdapterNotFound,
    /// A device enumeration came back empty where one device was required.
    NoDeviceFound,
    /// A legacy entry point was invoked; the payload names the replacement.
    DeprecatedFeature(String),
    /// A part of the surface that is intentionally not implemented.
    NotImplemented(String),
    /// An OBEX transfer's status could not be decoded as a state string.
    FailedToGetStatus,
    /// A parse or invariant violation not covered by the other variants.
    Unknown(String),
}

} // verus!
