//! The proxy for a GATT descriptor of a remote characteristic.

use vstd::prelude::*;
use crate::BlurzError;
use crate::bus_types::{BusValue, MethodCall, ObjectRecord};
use crate::bluetooth_gatt_characteristic::{is_offset_options, offset_options};
use crate::bluetooth_utils;
use crate::bluetooth_utils::{byte_list_property, descriptor_interface, graph_lookup,
    path_property, string_list_property, string_property};

verus! {

/// A lightweight handle for a GATT descriptor: the path of the remote
/// object.
#[derive(Debug, Clone, PartialEq, Eq)]
pub struct BluetoothGATTDescriptor {
    object_path: String,
}

impl View for BluetoothGATTDescriptor {
    type V = Seq<char>;

    closed spec fn view(&self) -> Seq<char> {
        self.object_path@
    }
}

impl BluetoothGATTDescriptor {
    pub fn new(object_path: String) -> (r: BluetoothGATTDescriptor)
        ensures
            r@ == object_path@,
    {
        BluetoothGATTDescriptor { object_path }
    }

    pub fn get_id(&self) -> (r: String)
        ensures
            r@ == self@,
    {
        self.object_path.clone()
    }

    fn get_property<'a>(&self, objects: &'a Vec<ObjectRecord>, prop: &str) -> (r: Result<
        &'a BusValue,
        BlurzError,
    >)
        ensures
            match graph_lookup(objects@, self@, descriptor_interface(), prop@) {
                Some(v) => r matches Ok(x) && *x == v,
                None => r matches Err(e) && e is BusError,
            },
    {
        bluetooth_utils::get_property(
            objects,
            "org.bluez.GattDescriptor1",
            self.object_path.as_str(),
            prop,
        )
    }

    fn call_method(&self, method: &str, param: Option<Vec<BusValue>>, timeout_ms: i32) -> (r:
        MethodCall)
        requires
            timeout_ms >= 0,
        ensures
            r.service@ == bluetooth_utils::bluez_service(),
            r.object_path@ == self@,
            r.interface@ == descriptor_interface(),
            r.member@ == method@,
            (match param {
                Some(p) => r.args == p,
                None => r.args@.len() == 0,
            }),
            r.timeout_ms == timeout_ms,
    {
        bluetooth_utils::call_method(
            "org.bluez.GattDescriptor1",
            self.object_path.as_str(),
            method,
            param,
            timeout_ms,
        )
    }

    pub fn get_uuid(&self, objects: &Vec<ObjectRecord>) -> (r: Result<String, BlurzError>)
        ensures
            match string_property(objects@, self@, descriptor_interface(), "UUID"@) {
                Some(s) => r matches Ok(v) && v@ == s,
                None => r matches Err(e) && e is BusError,
            },
    {
        self.get_property(objects, "UUID")?.as_string()
    }

    /// The characteristic this descriptor belongs to.
    pub fn get_characteristic(&self, objects: &Vec<ObjectRecord>) -> (r: Result<
        String,
        BlurzError,
    >)
        ensures
            match path_property(objects@, self@, descriptor_interface(), "Characteristic"@) {
                Some(s) => r matches Ok(v) && v@ == s,
                None => r matches Err(e) && e is BusError,
            },
    {
        self.get_property(objects, "Characteristic")?.as_path_string()
    }

    /// The cached value the daemon publishes for this descriptor.
    pub fn get_value(&self, objects: &Vec<ObjectRecord>) -> (r: Result<Vec<u8>, BlurzError>)
        ensures
            match byte_list_property(objects@, self@, descriptor_interface(), "Value"@) {
                Some(s) => r matches Ok(v) && v@ == s,
                None => r matches Err(e) && e is BusError,
            },
    {
        self.get_property(objects, "Value")?.as_byte_list()
    }

    pub fn get_flags(&self, objects: &Vec<ObjectRecord>) -> (r: Result<Vec<String>, BlurzError>)
        ensures
            match string_list_property(objects@, self@, descriptor_interface(), "Flags"@) {
                Some(s) => r matches Ok(v) && v.deep_view() == s,
                None => r matches Err(e) && e is BusError,
            },
    {
        self.get_property(objects, "Flags")?.as_string_list()
    }

    /// Builds the value read; the daemon replies with an array of bytes
    /// that [`crate::bus_types::decode_byte_array_reply`] reads back.
    pub fn read_value(&self, offset: Option<u16>) -> (r: MethodCall)
        ensures
            r.service@ == bluetooth_utils::bluez_service(),
            r.object_path@ == self@,
            r.interface@ == descriptor_interface(),
            r.member@ == "ReadValue"@,
            r.args@.len() == 1,
            is_offset_options(r.args@[0], offset),
            r.timeout_ms == 1000,
    {
        let mut args: Vec<BusValue> = Vec::new();
        args.push(offset_options(offset));
        self.call_method("ReadValue", Some(args), 1000)
    }

    /// Builds the value write: the bytes to write, then the options
    /// dictionary.
    pub fn write_value(&self, values: Vec<u8>, offset: Option<u16>) -> (r: MethodCall)
        ensures
            r.service@ == bluetooth_utils::bluez_service(),
            r.object_path@ == self@,
            r.interface@ == descriptor_interface(),
            r.member@ == "WriteValue"@,
            r.args@.len() == 2,
            r.args@[0].byte_array_value() == Some(values@),
            is_offset_options(r.args@[1], offset),
            r.timeout_ms == 1000,
    {
        let mut args: Vec<BusValue> = Vec::new();
        args.push(BusValue::byte_array(&values));
        args.push(offset_options(offset));
        self.call_method("WriteValue", Some(args), 1000)
    }
}

} // verus!
