//! The proxy for a remote device published by the daemon.

use vstd::prelude::*;
use crate::BlurzError;
use crate::bus_types::{BusValue, MethodCall, ObjectRecord, PropSet};
use crate::bluetooth_utils;
use crate::bluetooth_utils::{bool_property, child_paths, device_interface,
    graph_lookup, i16_property, service_interface, string_list_property, string_property,
    u16_property, u32_property};

verus! {

/// A lightweight handle for a remote device: the path of the remote object.
/// The daemon owns the device's state; reads take a snapshot of the
/// daemon's published object graph, and mutations are emitted as requests.
#[derive(Debug, Clone, PartialEq, Eq)]
pub struct BluetoothDevice {
    object_path: String,
}

impl View for BluetoothDevice {
    type V = Seq<char>;

    closed spec fn view(&self) -> Seq<char> {
        self.object_path@
    }
}

impl BluetoothDevice {
    pub fn new(object_path: String) -> (r: BluetoothDevice)
        ensures
            r@ == object_path@,
    {
        BluetoothDevice { object_path }
    }

    pub fn get_id(&self) -> (r: String)
        ensures
            r@ == self@,
    {
        self.object_path.clone()
    }

    fn get_property<'a>(&self, objects: &'a Vec<ObjectRecord>, prop: &str) -> (r: Result<
        &'a BusValue,
        BlurzError,
    >)
        ensures
            match graph_lookup(objects@, self@, device_interface(), prop@) {
                Some(v) => r matches Ok(x) && *x == v,
                None => r matches Err(e) && e is BusError,
            },
    {
        bluetooth_utils::get_property(
            objects,
            "org.bluez.Device1",
            self.object_path.as_str(),
            prop,
        )
    }

    fn set_property(&self, prop: &str, value: BusValue, timeout_ms: i32) -> (r: PropSet)
        requires
            timeout_ms >= 0,
        ensures
            r.interface@ == device_interface(),
            r.object_path@ == self@,
            r.name@ == prop@,
            r.value == value,
            r.timeout_ms == timeout_ms,
    {
        bluetooth_utils::set_property(
            "org.bluez.Device1",
            self.object_path.as_str(),
            prop,
            value,
            timeout_ms,
        )
    }

    fn call_method(&self, method: &str, param: Option<Vec<BusValue>>, timeout_ms: i32) -> (r:
        MethodCall)
        requires
            timeout_ms >= 0,
        ensures
            r.service@ == bluetooth_utils::bluez_service(),
            r.object_path@ == self@,
            r.interface@ == device_interface(),
            r.member@ == method@,
            (match param {
                Some(p) => r.args == p,
                None => r.args@.len() == 0,
            }),
            r.timeout_ms == timeout_ms,
    {
        bluetooth_utils::call_method(
            "org.bluez.Device1",
            self.object_path.as_str(),
            method,
            param,
            timeout_ms,
        )
    }

    pub fn get_address(&self, objects: &Vec<ObjectRecord>) -> (r: Result<String, BlurzError>)
        ensures
            match string_property(objects@, self@, device_interface(), "Address"@) {
                Some(s) => r matches Ok(v) && v@ == s,
                None => r matches Err(e) && e is BusError,
            },
    {
        self.get_property(objects, "Address")?.as_string()
    }

    pub fn get_name(&self, objects: &Vec<ObjectRecord>) -> (r: Result<String, BlurzError>)
        ensures
            match string_property(objects@, self@, device_interface(), "Name"@) {
                Some(s) => r matches Ok(v) && v@ == s,
                None => r matches Err(e) && e is BusError,
            },
    {
        self.get_property(objects, "Name")?.as_string()
    }

    pub fn get_alias(&self, objects: &Vec<ObjectRecord>) -> (r: Result<String, BlurzError>)
        ensures
            match string_property(objects@, self@, device_interface(), "Alias"@) {
                Some(s) => r matches Ok(v) && v@ == s,
                None => r matches Err(e) && e is BusError,
            },
    {
        self.get_property(objects, "Alias")?.as_string()
    }

    /// Builds the write of the device's alias; the write deadline is the
    /// canonical one second.
    pub fn set_alias(&self, value: String) -> (r: PropSet)
        ensures
            r.interface@ == device_interface(),
            r.object_path@ == self@,
            r.name@ == "Alias"@,
            r.value == BusValue::Str(value),
            r.timeout_ms == 1000,
    {
        self.set_property("Alias", BusValue::Str(value), 1000)
    }

    pub fn get_appearance(&self, objects: &Vec<ObjectRecord>) -> (r: Result<u16, BlurzError>)
        ensures
            match u16_property(objects@, self@, device_interface(), "Appearance"@) {
                Some(x) => r == Ok::<u16, BlurzError>(x),
                None => r matches Err(e) && e is BusError,
            },
    {
        self.get_property(objects, "Appearance")?.as_u16()
    }

    pub fn get_class(&self, objects: &Vec<ObjectRecord>) -> (r: Result<u32, BlurzError>)
        ensures
            match u32_property(objects@, self@, device_interface(), "Class"@) {
                Some(x) => r == Ok::<u32, BlurzError>(x),
                None => r matches Err(e) && e is BusError,
            },
    {
        self.get_property(objects, "Class")?.as_u32()
    }

    pub fn get_uuids(&self, objects: &Vec<ObjectRecord>) -> (r: Result<Vec<String>, BlurzError>)
        ensures
            match string_list_property(objects@, self@, device_interface(), "UUIDs"@) {
                Some(s) => r matches Ok(v) && v.deep_view() == s,
                None => r matches Err(e) && e is BusError,
            },
    {
        self.get_property(objects, "UUIDs")?.as_string_list()
    }

    pub fn is_paired(&self, objects: &Vec<ObjectRecord>) -> (r: Result<bool, BlurzError>)
        ensures
            match bool_property(objects@, self@, device_interface(), "Paired"@) {
                Some(b) => r == Ok::<bool, BlurzError>(b),
                None => r matches Err(e) && e is BusError,
            },
    {
        self.get_property(objects, "Paired")?.as_bool()
    }

    pub fn is_connected(&self, objects: &Vec<ObjectRecord>) -> (r: Result<bool, BlurzError>)
        ensures
            match bool_property(objects@, self@, device_interface(), "Connected"@) {
                Some(b) => r == Ok::<bool, BlurzError>(b),
                None => r matches Err(e) && e is BusError,
            },
    {
        self.get_property(objects, "Connected")?.as_bool()
    }

    pub fn is_trusted(&self, objects: &Vec<ObjectRecord>) -> (r: Result<bool, BlurzError>)
        ensures
            match bool_property(objects@, self@, device_interface(), "Trusted"@) {
                Some(b) => r == Ok::<bool, BlurzError>(b),
                None => r matches Err(e) && e is BusError,
            },
    {
        self.get_property(objects, "Trusted")?.as_bool()
    }

    pub fn set_trusted(&self, value: bool) -> (r: PropSet)
        ensures
            r.interface@ == device_interface(),
            r.object_path@ == self@,
            r.name@ == "Trusted"@,
            r.value == BusValue::Bool(value),
            r.timeout_ms == 1000,
    {
        self.set_property("Trusted", BusValue::Bool(value), 1000)
    }

    pub fn is_blocked(&self, objects: &Vec<ObjectRecord>) -> (r: Result<bool, BlurzError>)
        ensures
            match bool_property(objects@, self@, device_interface(), "Blocked"@) {
                Some(b) => r == Ok::<bool, BlurzError>(b),
                None => r matches Err(e) && e is BusError,
            },
    {
        self.get_property(objects, "Blocked")?.as_bool()
    }

    pub fn set_blocked(&self, value: bool) -> (r: PropSet)
        ensures
            r.interface@ == device_interface(),
            r.object_path@ == self@,
            r.name@ == "Blocked"@,
            r.value == BusValue::Bool(value),
            r.timeout_ms == 1000,
    {
        self.set_property("Blocked", BusValue::Bool(value), 1000)
    }

    pub fn get_rssi(&self, objects: &Vec<ObjectRecord>) -> (r: Result<i16, BlurzError>)
        ensures
            match i16_property(objects@, self@, device_interface(), "RSSI"@) {
                Some(x) => r == Ok::<i16, BlurzError>(x),
                None => r matches Err(e) && e is BusError,
            },
    {
        self.get_property(objects, "RSSI")?.as_i16()
    }

    pub fn get_tx_power(&self, objects: &Vec<ObjectRecord>) -> (r: Result<i16, BlurzError>)
        ensures
            match i16_property(objects@, self@, device_interface(), "TxPower"@) {
                Some(x) => r == Ok::<i16, BlurzError>(x),
                None => r matches Err(e) && e is BusError,
            },
    {
        self.get_property(objects, "TxPower")?.as_i16()
    }

    pub fn is_services_resolved(&self, objects: &Vec<ObjectRecord>) -> (r: Result<
        bool,
        BlurzError,
    >)
        ensures
            match bool_property(objects@, self@, device_interface(), "ServicesResolved"@) {
                Some(b) => r == Ok::<bool, BlurzError>(b),
                None => r matches Err(e) && e is BusError,
            },
    {
        self.get_property(objects, "ServicesResolved")?.as_bool()
    }

    /// The manufacturer data the device advertises, keyed by company
    /// identifier.
    pub fn get_manufacturer_data(&self, objects: &Vec<ObjectRecord>) -> (r: Result<
        Vec<(u16, Vec<u8>)>,
        BlurzError,
    >)
        ensures
            match graph_lookup(objects@, self@, device_interface(), "ManufacturerData"@) {
                Some(v) => (match v.u16_bytes_dict_value() {
                    Some(s) => r matches Ok(d) && d@.len() == s.len() && forall|i: int|
                        0 <= i < s.len() ==> (#[trigger] d@[i]).0 == s[i].0 && d@[i].1@ == s[i].1,
                    None => r matches Err(e) && e is BusError,
                }),
                None => r matches Err(e) && e is BusError,
            },
    {
        self.get_property(objects, "ManufacturerData")?.as_u16_bytes_dict()
    }

    /// The service data the device advertises, keyed by service UUID.
    pub fn get_service_data(&self, objects: &Vec<ObjectRecord>) -> (r: Result<
        Vec<(String, Vec<u8>)>,
        BlurzError,
    >)
        ensures
            match graph_lookup(objects@, self@, device_interface(), "ServiceData"@) {
                Some(v) => (match v.string_bytes_dict_value() {
                    Some(s) => r matches Ok(d) && d@.len() == s.len() && forall|i: int|
                        0 <= i < s.len() ==> (#[trigger] d@[i]).0@ == s[i].0 && d@[i].1@ == s[i].1,
                    None => r matches Err(e) && e is BusError,
                }),
                None => r matches Err(e) && e is BusError,
            },
    {
        self.get_property(objects, "ServiceData")?.as_string_bytes_dict()
    }

    /// Builds the connection request.  The daemon accepts or rejects the
    /// connection within the given deadline; service resolution completes
    /// asynchronously afterwards, so callers gate on the services-resolved
    /// flag before walking the GATT tree.
    pub fn connect(&self, timeout_ms: i32) -> (r: MethodCall)
        requires
            timeout_ms >= 0,
        ensures
            r.service@ == bluetooth_utils::bluez_service(),
            r.object_path@ == self@,
            r.interface@ == device_interface(),
            r.member@ == "Connect"@,
            r.args@.len() == 0,
            r.timeout_ms == timeout_ms,
    {
        self.call_method("Connect", None, timeout_ms)
    }

    pub fn disconnect(&self) -> (r: MethodCall)
        ensures
            r.service@ == bluetooth_utils::bluez_service(),
            r.object_path@ == self@,
            r.interface@ == device_interface(),
            r.member@ == "Disconnect"@,
            r.args@.len() == 0,
            r.timeout_ms == 1000,
    {
        self.call_method("Disconnect", None, 1000)
    }

    pub fn pair(&self) -> (r: MethodCall)
        ensures
            r.service@ == bluetooth_utils::bluez_service(),
            r.object_path@ == self@,
            r.interface@ == device_interface(),
            r.member@ == "Pair"@,
            r.args@.len() == 0,
            r.timeout_ms == 1000,
    {
        self.call_method("Pair", None, 1000)
    }

    pub fn cancel_pairing(&self) -> (r: MethodCall)
        ensures
            r.service@ == bluetooth_utils::bluez_service(),
            r.object_path@ == self@,
            r.interface@ == device_interface(),
            r.member@ == "CancelPairing"@,
            r.args@.len() == 0,
            r.timeout_ms == 1000,
    {
        self.call_method("CancelPairing", None, 1000)
    }

    pub fn connect_profile(&self, uuid: String) -> (r: MethodCall)
        ensures
            r.service@ == bluetooth_utils::bluez_service(),
            r.object_path@ == self@,
            r.interface@ == device_interface(),
            r.member@ == "ConnectProfile"@,
            r.args@.len() == 1,
            r.args@[0] == BusValue::Str(uuid),
            r.timeout_ms == 1000,
    {
        let mut args: Vec<BusValue> = Vec::new();
        args.push(BusValue::Str(uuid));
        self.call_method("ConnectProfile", Some(args), 1000)
    }

    pub fn disconnect_profile(&self, uuid: String) -> (r: MethodCall)
        ensures
            r.service@ == bluetooth_utils::bluez_service(),
            r.object_path@ == self@,
            r.interface@ == device_interface(),
            r.member@ == "DisconnectProfile"@,
            r.args@.len() == 1,
            r.args@[0] == BusValue::Str(uuid),
            r.timeout_ms == 1000,
    {
        let mut args: Vec<BusValue> = Vec::new();
        args.push(BusValue::Str(uuid));
        self.call_method("DisconnectProfile", Some(args), 1000)
    }

    /// The GATT services resolved under this device, in snapshot order.
    /// Until the device is connected and services are resolved, the daemon
    /// may publish none; an empty enumeration is a valid result.
    pub fn get_gatt_services(&self, objects: &Vec<ObjectRecord>) -> (r: Vec<String>)
        ensures
            r.deep_view() == child_paths(objects@, service_interface(), self@, "Device"@),
    {
        bluetooth_utils::list_services(objects, &self.object_path)
    }
}

} // verus!
