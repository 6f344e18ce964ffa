//! The proxy for a GATT characteristic of a remote device.

use vstd::prelude::*;
use crate::BlurzError;
use crate::bus_types::{BusValue, MethodCall, ObjectRecord};
use crate::bluetooth_utils;
use crate::bluetooth_utils::{bool_property, byte_list_property, characteristic_interface,
    child_paths, descriptor_interface, graph_lookup, path_property, string_list_property,
    string_property};

verus! {

/// Whether a dictionary value is the canonical value-I/O options: empty for
/// an absent offset, or a single `offset` entry carrying the offset as a
/// variant-wrapped unsigned 16-bit value.
pub open spec fn is_offset_options(v: BusValue, offset: Option<u16>) -> bool {
    match v {
        BusValue::Dict(entries) => match offset {
            Some(o) => {
                &&& entries@.len() == 1
                &&& entries@[0].0.str_value() == Some("offset"@)
                &&& match entries@[0].1 {
                    BusValue::Variant(inner) => *inner == BusValue::U16(o),
                    _ => false,
                }
            },
            None => entries@.len() == 0,
        },
        _ => false,
    }
}

/// Builds the value-I/O options dictionary, with the `offset` key present
/// exactly when the caller provided an offset.
pub fn offset_options(offset: Option<u16>) -> (r: BusValue)
    ensures
        is_offset_options(r, offset),
{
    let mut entries: Vec<(BusValue, BusValue)> = Vec::new();
    match offset {
        Some(o) => {
            entries.push(
                (BusValue::Str("offset".to_owned()), BusValue::Variant(
                    Box::new(BusValue::U16(o)),
                )),
            );
        }
        None => {}
    }
    BusValue::Dict(entries)
}

/// A lightweight handle for a GATT characteristic: the path of the remote
/// object.
#[derive(Debug, Clone, PartialEq, Eq)]
pub struct BluetoothGATTCharacteristic {
    object_path: String,
}

impl View for BluetoothGATTCharacteristic {
    type V = Seq<char>;

    closed spec fn view(&self) -> Seq<char> {
        self.object_path@
    }
}

impl BluetoothGATTCharacteristic {
    pub fn new(object_path: String) -> (r: BluetoothGATTCharacteristic)
        ensures
            r@ == object_path@,
    {
        BluetoothGATTCharacteristic { object_path }
    }

    pub fn get_id(&self) -> (r: String)
        ensures
            r@ == self@,
    {
        self.object_path.clone()
    }

    fn get_property<'a>(&self, objects: &'a Vec<ObjectRecord>, prop: &str) -> (r: Result<
        &'a BusValue,
        BlurzError,
    >)
        ensures
            match graph_lookup(objects@, self@, characteristic_interface(), prop@) {
                Some(v) => r matches Ok(x) && *x == v,
                None => r matches Err(e) && e is BusError,
            },
    {
        bluetooth_utils::get_property(
            objects,
            "org.bluez.GattCharacteristic1",
            self.object_path.as_str(),
            prop,
        )
    }

    fn call_method(&self, method: &str, param: Option<Vec<BusValue>>, timeout_ms: i32) -> (r:
        MethodCall)
        requires
            timeout_ms >= 0,
        ensures
            r.service@ == bluetooth_utils::bluez_service(),
            r.object_path@ == self@,
            r.interface@ == characteristic_interface(),
            r.member@ == method@,
            (match param {
                Some(p) => r.args == p,
                None => r.args@.len() == 0,
            }),
            r.timeout_ms == timeout_ms,
    {
        bluetooth_utils::call_method(
            "org.bluez.GattCharacteristic1",
            self.object_path.as_str(),
            method,
            param,
            timeout_ms,
        )
    }

    pub fn get_uuid(&self, objects: &Vec<ObjectRecord>) -> (r: Result<String, BlurzError>)
        ensures
            match string_property(objects@, self@, characteristic_interface(), "UUID"@) {
                Some(s) => r matches Ok(v) && v@ == s,
                None => r matches Err(e) && e is BusError,
            },
    {
        self.get_property(objects, "UUID")?.as_string()
    }

    /// The service this characteristic belongs to.
    pub fn get_service(&self, objects: &Vec<ObjectRecord>) -> (r: Result<String, BlurzError>)
        ensures
            match path_property(objects@, self@, characteristic_interface(), "Service"@) {
                Some(s) => r matches Ok(v) && v@ == s,
                None => r matches Err(e) && e is BusError,
            },
    {
        self.get_property(objects, "Service")?.as_path_string()
    }

    /// The cached value the daemon publishes for this characteristic.
    pub fn get_value(&self, objects: &Vec<ObjectRecord>) -> (r: Result<Vec<u8>, BlurzError>)
        ensures
            match byte_list_property(objects@, self@, characteristic_interface(), "Value"@) {
                Some(s) => r matches Ok(v) && v@ == s,
                None => r matches Err(e) && e is BusError,
            },
    {
        self.get_property(objects, "Value")?.as_byte_list()
    }

    pub fn is_notifying(&self, objects: &Vec<ObjectRecord>) -> (r: Result<bool, BlurzError>)
        ensures
            match bool_property(objects@, self@, characteristic_interface(), "Notifying"@) {
                Some(b) => r == Ok::<bool, BlurzError>(b),
                None => r matches Err(e) && e is BusError,
            },
    {
        self.get_property(objects, "Notifying")?.as_bool()
    }

    pub fn get_flags(&self, objects: &Vec<ObjectRecord>) -> (r: Result<Vec<String>, BlurzError>)
        ensures
            match string_list_property(objects@, self@, characteristic_interface(), "Flags"@) {
                Some(s) => r matches Ok(v) && v.deep_view() == s,
                None => r matches Err(e) && e is BusError,
            },
    {
        self.get_property(objects, "Flags")?.as_string_list()
    }

    /// The descriptors enumerated under this characteristic, in snapshot
    /// order.
    pub fn get_gatt_descriptors(&self, objects: &Vec<ObjectRecord>) -> (r: Vec<String>)
        ensures
            r.deep_view() == child_paths(
                objects@,
                descriptor_interface(),
                self@,
                "Characteristic"@,
            ),
    {
        bluetooth_utils::list_descriptors(objects, &self.object_path)
    }

    /// Builds the value read; the daemon replies with an array of bytes
    /// that [`crate::bus_types::decode_byte_array_reply`] reads back.  The
    /// `offset` key is sent exactly when an offset was provided.
    pub fn read_value(&self, offset: Option<u16>) -> (r: MethodCall)
        ensures
            r.service@ == bluetooth_utils::bluez_service(),
            r.object_path@ == self@,
            r.interface@ == characteristic_interface(),
            r.member@ == "ReadValue"@,
            r.args@.len() == 1,
            is_offset_options(r.args@[0], offset),
            r.timeout_ms == 1000,
    {
        let mut args: Vec<BusValue> = Vec::new();
        args.push(offset_options(offset));
        self.call_method("ReadValue", Some(args), 1000)
    }

    /// Builds the value write: the bytes to write, then the options
    /// dictionary.  Writes may take longer than reads, so the deadline is
    /// ten seconds.
    pub fn write_value(&self, values: Vec<u8>, offset: Option<u16>) -> (r: MethodCall)
        ensures
            r.service@ == bluetooth_utils::bluez_service(),
            r.object_path@ == self@,
            r.interface@ == characteristic_interface(),
            r.member@ == "WriteValue"@,
            r.args@.len() == 2,
            r.args@[0].byte_array_value() == Some(values@),
            is_offset_options(r.args@[1], offset),
            r.timeout_ms == 10000,
    {
        let mut args: Vec<BusValue> = Vec::new();
        args.push(BusValue::byte_array(&values));
        args.push(offset_options(offset));
        self.call_method("WriteValue", Some(args), 10000)
    }

    pub fn start_notify(&self) -> (r: MethodCall)
        ensures
            r.service@ == bluetooth_utils::bluez_service(),
            r.object_path@ == self@,
            r.interface@ == characteristic_interface(),
            r.member@ == "StartNotify"@,
            r.args@.len() == 0,
            r.timeout_ms == 1000,
    {
        self.call_method("StartNotify", None, 1000)
    }

    pub fn stop_notify(&self) -> (r: MethodCall)
        ensures
            r.service@ == bluetooth_utils::bluez_service(),
            r.object_path@ == self@,
            r.interface@ == characteristic_interface(),
            r.member@ == "StopNotify"@,
            r.args@.len() == 0,
            r.timeout_ms == 1000,
    {
        self.call_method("StopNotify", None, 1000)
    }

    /// Builds the request that acquires a notification stream.  The daemon
    /// replies with a kernel file descriptor and the stream's MTU; the
    /// descriptor's ownership passes to the transport's caller, so the
    /// reply is read at the transport boundary.
    pub fn acquire_notify(&self) -> (r: MethodCall)
        ensures
            r.service@ == bluetooth_utils::bluez_service(),
            r.object_path@ == self@,
            r.interface@ == characteristic_interface(),
            r.member@ == "AcquireNotify"@,
            r.args@.len() == 1,
            (r.args@[0] matches BusValue::Dict(d) && d@.len() == 0),
            r.timeout_ms == 1000,
    {
        let mut args: Vec<BusValue> = Vec::new();
        args.push(offset_options(None));
        self.call_method("AcquireNotify", Some(args), 1000)
    }

    /// Builds the request that acquires a write stream, as
    /// [`Self::acquire_notify`] does for notifications.
    pub fn acquire_write(&self) -> (r: MethodCall)
        ensures
            r.service@ == bluetooth_utils::bluez_service(),
            r.object_path@ == self@,
            r.interface@ == characteristic_interface(),
            r.member@ == "AcquireWrite"@,
            r.args@.len() == 1,
            (r.args@[0] matches BusValue::Dict(d) && d@.len() == 0),
            r.timeout_ms == 1000,
    {
        let mut args: Vec<BusValue> = Vec::new();
        args.push(offset_options(None));
        self.call_method("AcquireWrite", Some(args), 1000)
    }
}

} // verus!
