//! The proxy for a GATT service of a remote device.

use vstd::prelude::*;
use crate::BlurzError;
use crate::bus_types::{BusValue, ObjectRecord};
use crate::bluetooth_utils;
use crate::bluetooth_utils::{bool_property, characteristic_interface, child_paths, graph_lookup,
    path_property, service_interface, string_property};

verus! {

/// A lightweight handle for a GATT service: the path of the remote object.
#[derive(Debug, Clone, PartialEq, Eq)]
pub struct BluetoothGATTService {
    object_path: String,
}

impl View for BluetoothGATTService {
    type V = Seq<char>;

    closed spec fn view(&self) -> Seq<char> {
        self.object_path@
    }
}

impl BluetoothGATTService {
    pub fn new(object_path: String) -> (r: BluetoothGATTService)
        ensures
            r@ == object_path@,
    {
        BluetoothGATTService { object_path }
    }

    pub fn get_id(&self) -> (r: String)
        ensures
            r@ == self@,
    {
        self.object_path.clone()
    }

    fn get_property<'a>(&self, objects: &'a Vec<ObjectRecord>, prop: &str) -> (r: Result<
        &'a BusValue,
        BlurzError,
    >)
        ensures
            match graph_lookup(objects@, self@, service_interface(), prop@) {
                Some(v) => r matches Ok(x) && *x == v,
                None => r matches Err(e) && e is BusError,
            },
    {
        bluetooth_utils::get_property(
            objects,
            "org.bluez.GattService1",
            self.object_path.as_str(),
            prop,
        )
    }

    pub fn get_uuid(&self, objects: &Vec<ObjectRecord>) -> (r: Result<String, BlurzError>)
        ensures
            match string_property(objects@, self@, service_interface(), "UUID"@) {
                Some(s) => r matches Ok(v) && v@ == s,
                None => r matches Err(e) && e is BusError,
            },
    {
        self.get_property(objects, "UUID")?.as_string()
    }

    pub fn is_primary(&self, objects: &Vec<ObjectRecord>) -> (r: Result<bool, BlurzError>)
        ensures
            match bool_property(objects@, self@, service_interface(), "Primary"@) {
                Some(b) => r == Ok::<bool, BlurzError>(b),
                None => r matches Err(e) && e is BusError,
            },
    {
        self.get_property(objects, "Primary")?.as_bool()
    }

    /// The device this service belongs to.
    pub fn get_device(&self, objects: &Vec<ObjectRecord>) -> (r: Result<String, BlurzError>)
        ensures
            match path_property(objects@, self@, service_interface(), "Device"@) {
                Some(s) => r matches Ok(v) && v@ == s,
                None => r matches Err(e) && e is BusError,
            },
    {
        self.get_property(objects, "Device")?.as_path_string()
    }

    /// Included services are intentionally not implemented.
    pub fn get_includes(&self) -> (r: Result<Vec<String>, BlurzError>)
        ensures
            r matches Err(e) && e matches BlurzError::NotImplemented(s) && s@ == "get_includes"@,
    {
        Err(BlurzError::NotImplemented("get_includes".to_owned()))
    }

    /// The characteristics enumerated under this service, in snapshot order.
    pub fn get_gatt_characteristics(&self, objects: &Vec<ObjectRecord>) -> (r: Vec<String>)
        ensures
            r.deep_view() == child_paths(objects@, characteristic_interface(), self@, "Service"@),
    {
        bluetooth_utils::list_characteristics(objects, &self.object_path)
    }
}

} // verus!
