//! Typed utilities over the daemon's published object graph.
//!
//! The object-manager snapshot of the daemon is a vector of
//! [`ObjectRecord`]s.  Enumeration and property reads are lookups in that
//! snapshot; property writes and method invocations are built here as
//! requests for the transport to perform.

use vstd::prelude::*;
use crate::BlurzError;
use crate::bus_types::{BusValue, InterfaceRecord, MethodCall, ObjectRecord, PropSet,
    PropertyRecord, str_eq};

verus! {

pub open spec fn bluez_service() -> Seq<char> {
    "org.bluez"@
}

pub open spec fn object_manager_interface() -> Seq<char> {
    "org.freedesktop.DBus.ObjectManager"@
}

pub open spec fn adapter_interface() -> Seq<char> {
    "org.bluez.Adapter1"@
}

pub open spec fn device_interface() -> Seq<char> {
    "org.bluez.Device1"@
}

pub open spec fn service_interface() -> Seq<char> {
    "org.bluez.GattService1"@
}

pub open spec fn characteristic_interface() -> Seq<char> {
    "org.bluez.GattCharacteristic1"@
}

pub open spec fn descriptor_interface() -> Seq<char> {
    "org.bluez.GattDescriptor1"@
}

/// The first object of the snapshot published under `path`.
pub open spec fn find_object(objs: Seq<ObjectRecord>, path: Seq<char>) -> Option<ObjectRecord>
    decreases objs.len(),
{
    if objs.len() == 0 {
        None
    } else if objs.first().object_path@ == path {
        Some(objs.first())
    } else {
        find_object(objs.drop_first(), path)
    }
}

/// The first interface of the list named `name`.
pub open spec fn find_interface(ifaces: Seq<InterfaceRecord>, name: Seq<char>) -> Option<
    InterfaceRecord,
>
    decreases ifaces.len(),
{
    if ifaces.len() == 0 {
        None
    } else if ifaces.first().name@ == name {
        Some(ifaces.first())
    } else {
        find_interface(ifaces.drop_first(), name)
    }
}

/// The first property of the dictionary named `name`.
pub open spec fn find_property(props: Seq<PropertyRecord>, name: Seq<char>) -> Option<
    PropertyRecord,
>
    decreases props.len(),
{
    if props.len() == 0 {
        None
    } else if props.first().name@ == name {
        Some(props.first())
    } else {
        find_property(props.drop_first(), name)
    }
}

/// Whether an object advertises the given interface.
pub open spec fn object_has_interface(o: ObjectRecord, iface: Seq<char>) -> bool {
    find_interface(o.interfaces@, iface) is Some
}

/// The value an object publishes for a property under an interface.
pub open spec fn lookup_property(o: ObjectRecord, iface: Seq<char>, prop: Seq<char>) -> Option<
    BusValue,
> {
    match find_interface(o.interfaces@, iface) {
        Some(ir) => match find_property(ir.properties@, prop) {
            Some(pr) => Some(pr.value),
            None => None,
        },
        None => None,
    }
}

/// The value published for a property of the object at `path`.
pub open spec fn graph_lookup(
    objs: Seq<ObjectRecord>,
    path: Seq<char>,
    iface: Seq<char>,
    prop: Seq<char>,
) -> Option<BusValue> {
    match find_object(objs, path) {
        Some(o) => lookup_property(o, iface, prop),
        None => None,
    }
}

/// The string an object publishes for a property, if it is published as a
/// string.
pub open spec fn string_property(
    objs: Seq<ObjectRecord>,
    path: Seq<char>,
    iface: Seq<char>,
    prop: Seq<char>,
) -> Option<Seq<char>> {
    match graph_lookup(objs, path, iface, prop) {
        Some(v) => v.str_value(),
        None => None,
    }
}

/// The object path a property publishes, if it is published as a path.
pub open spec fn path_property(
    objs: Seq<ObjectRecord>,
    path: Seq<char>,
    iface: Seq<char>,
    prop: Seq<char>,
) -> Option<Seq<char>> {
    match graph_lookup(objs, path, iface, prop) {
        Some(v) => v.path_value(),
        None => None,
    }
}

pub open spec fn bool_property(
    objs: Seq<ObjectRecord>,
    path: Seq<char>,
    iface: Seq<char>,
    prop: Seq<char>,
) -> Option<bool> {
    match graph_lookup(objs, path, iface, prop) {
        Some(v) => v.bool_value(),
        None => None,
    }
}

pub open spec fn u16_property(
    objs: Seq<ObjectRecord>,
    path: Seq<char>,
    iface: Seq<char>,
    prop: Seq<char>,
) -> Option<u16> {
    match graph_lookup(objs, path, iface, prop) {
        Some(v) => v.u16_value(),
        None => None,
    }
}

pub open spec fn i16_property(
    objs: Seq<ObjectRecord>,
    path: Seq<char>,
    iface: Seq<char>,
    prop: Seq<char>,
) -> Option<i16> {
    match graph_lookup(objs, path, iface, prop) {
        Some(v) => v.i16_value(),
        None => None,
    }
}

pub open spec fn u32_property(
    objs: Seq<ObjectRecord>,
    path: Seq<char>,
    iface: Seq<char>,
    prop: Seq<char>,
) -> Option<u32> {
    match graph_lookup(objs, path, iface, prop) {
        Some(v) => v.u32_value(),
        None => None,
    }
}

pub open spec fn string_list_property(
    objs: Seq<ObjectRecord>,
    path: Seq<char>,
    iface: Seq<char>,
    prop: Seq<char>,
) -> Option<Seq<Seq<char>>> {
    match graph_lookup(objs, path, iface, prop) {
        Some(v) => v.string_array_value(),
        None => None,
    }
}

pub open spec fn byte_list_property(
    objs: Seq<ObjectRecord>,
    path: Seq<char>,
    iface: Seq<char>,
    prop: Seq<char>,
) -> Option<Seq<u8>> {
    match graph_lookup(objs, path, iface, prop) {
        Some(v) => v.byte_array_value(),
        None => None,
    }
}

fn find_object_exec<'a>(objects: &'a Vec<ObjectRecord>, path: &str) -> (r: Option<
    &'a ObjectRecord,
>)
    ensures
        match find_object(objects@, path@) {
            Some(o) => r matches Some(x) && *x == o,
            None => r is None,
        },
{
    let mut i: usize = 0;
    proof {
        assert(objects@.skip(0) =~= objects@);
    }
    while i < objects.len()
        invariant
            i <= objects.len(),
            find_object(objects@, path@) == find_object(objects@.skip(i as int), path@),
        decreases objects.len() - i,
    {
        proof {
            assert(objects@.skip(i as int).first() == objects@[i as int]);
            assert(objects@.skip(i as int).drop_first() =~= objects@.skip(i as int + 1));
        }
        if str_eq(objects[i].object_path.as_str(), path) {
            return Some(&objects[i]);
        }
        i = i + 1;
    }
    proof {
        assert(objects@.skip(objects@.len() as int).len() == 0);
    }
    None
}

fn find_interface_exec<'a>(ifaces: &'a Vec<InterfaceRecord>, name: &str) -> (r: Option<
    &'a InterfaceRecord,
>)
    ensures
        match find_interface(ifaces@, name@) {
            Some(ir) => r matches Some(x) && *x == ir,
            None => r is None,
        },
{
    let mut i: usize = 0;
    proof {
        assert(ifaces@.skip(0) =~= ifaces@);
    }
    while i < ifaces.len()
        invariant
            i <= ifaces.len(),
            find_interface(ifaces@, name@) == find_interface(ifaces@.skip(i as int), name@),
        decreases ifaces.len() - i,
    {
        proof {
            assert(ifaces@.skip(i as int).first() == ifaces@[i as int]);
            assert(ifaces@.skip(i as int).drop_first() =~= ifaces@.skip(i as int + 1));
        }
        if str_eq(ifaces[i].name.as_str(), name) {
            return Some(&ifaces[i]);
        }
        i = i + 1;
    }
    proof {
        assert(ifaces@.skip(ifaces@.len() as int).len() == 0);
    }
    None
}

fn find_property_exec<'a>(props: &'a Vec<PropertyRecord>, name: &str) -> (r: Option<
    &'a PropertyRecord,
>)
    ensures
        match find_property(props@, name@) {
            Some(pr) => r matches Some(x) && *x == pr,
            None => r is None,
        },
{
    let mut i: usize = 0;
    proof {
        assert(props@.skip(0) =~= props@);
    }
    while i < props.len()
        invariant
            i <= props.len(),
            find_property(props@, name@) == find_property(props@.skip(i as int), name@),
        decreases props.len() - i,
    {
        proof {
            assert(props@.skip(i as int).first() == props@[i as int]);
            assert(props@.skip(i as int).drop_first() =~= props@.skip(i as int + 1));
        }
        if str_eq(props[i].name.as_str(), name) {
            return Some(&props[i]);
        }
        i = i + 1;
    }
    proof {
        assert(props@.skip(props@.len() as int).len() == 0);
    }
    None
}

fn lookup_property_exec<'a>(o: &'a ObjectRecord, iface: &str, prop: &str) -> (r: Option<
    &'a BusValue,
>)
    ensures
        match lookup_property(*o, iface@, prop@) {
            Some(v) => r matches Some(x) && *x == v,
            None => r is None,
        },
{
    match find_interface_exec(&o.interfaces, iface) {
        Some(ir) => match find_property_exec(&ir.properties, prop) {
            Some(pr) => Some(&pr.value),
            None => None,
        },
        None => None,
    }
}

/// The canonical property read: the value the object at `object_path`
/// publishes for `prop` under `interface`, out of a snapshot of the
/// daemon's object graph.  A missing object, interface or property is a
/// bus-level failure.
pub fn get_property<'a>(
    objects: &'a Vec<ObjectRecord>,
    interface: &str,
    object_path: &str,
    prop: &str,
) -> (r: Result<&'a BusValue, BlurzError>)
    ensures
        match graph_lookup(objects@, object_path@, interface@, prop@) {
            Some(v) => r matches Ok(x) && *x == v,
            None => r matches Err(e) && e is BusError,
        },
{
    match find_object_exec(objects, object_path) {
        Some(o) => match lookup_property_exec(o, interface, prop) {
            Some(v) => Ok(v),
            None => Err(BlurzError::BusError("no such property".to_owned())),
        },
        None => Err(BlurzError::BusError("no such object".to_owned())),
    }
}

/// The paths that publish the adapter interface, in snapshot order.
pub open spec fn adapter_paths(objs: Seq<ObjectRecord>) -> Seq<Seq<char>>
    decreases objs.len(),
{
    if objs.len() == 0 {
        Seq::empty()
    } else {
        let rest = adapter_paths(objs.drop_last());
        if object_has_interface(objs.last(), adapter_interface()) {
            rest.push(objs.last().object_path@)
        } else {
            rest
        }
    }
}

/// Enumerates the adapters the daemon publishes: exactly the paths whose
/// interface set includes the adapter interface, in snapshot order.
pub fn get_adapters(objects: &Vec<ObjectRecord>) -> (r: Vec<String>)
    ensures
        r.deep_view() == adapter_paths(objects@),
{
    let mut out: Vec<String> = Vec::new();
    let mut i: usize = 0;
    while i < objects.len()
        invariant
            i <= objects.len(),
            out.deep_view() =~= adapter_paths(objects@.take(i as int)),
        decreases objects.len() - i,
    {
        proof {
            assert(objects@.take(i as int + 1).drop_last() =~= objects@.take(i as int));
            assert(objects@.take(i as int + 1).last() == objects@[i as int]);
        }
        if find_interface_exec(&objects[i].interfaces, "org.bluez.Adapter1").is_some() {
            out.push(objects[i].object_path.clone());
        }
        i = i + 1;
    }
    proof {
        assert(objects@.take(objects@.len() as int) =~= objects@);
    }
    out
}

/// Law: every object that publishes the adapter interface is enumerated
/// under its path.
pub proof fn lemma_adapter_paths_complete(objs: Seq<ObjectRecord>, i: int)
    requires
        0 <= i < objs.len(),
        object_has_interface(objs[i], adapter_interface()),
    ensures
        adapter_paths(objs).contains(objs[i].object_path@),
    decreases objs.len(),
{
    let rest = adapter_paths(objs.drop_last());
    if i == objs.len() - 1 {
        let full = rest.push(objs.last().object_path@);
        assert(full[rest.len() as int] == objs[i].object_path@);
    } else {
        assert(objs.drop_last()[i] == objs[i]);
        lemma_adapter_paths_complete(objs.drop_last(), i);
        let p = objs[i].object_path@;
        let k = choose|k: int| 0 <= k < rest.len() && rest[k] == p;
        if object_has_interface(objs.last(), adapter_interface()) {
            assert(rest.push(objs.last().object_path@)[k] == p);
        }
    }
}

/// Law: every enumerated adapter path is published with the adapter
/// interface by some object of the snapshot.
pub proof fn lemma_adapter_paths_sound(objs: Seq<ObjectRecord>, p: Seq<char>)
    requires
        adapter_paths(objs).contains(p),
    ensures
        exists|i: int|
            0 <= i < objs.len() && (#[trigger] objs[i]).object_path@ == p
                && object_has_interface(objs[i], adapter_interface()),
    decreases objs.len(),
{
    if objs.len() == 0 {
        assert(adapter_paths(objs).len() == 0);
    } else {
        let rest = adapter_paths(objs.drop_last());
        if object_has_interface(objs.last(), adapter_interface()) {
            let full = rest.push(objs.last().object_path@);
            let k = choose|k: int| 0 <= k < full.len() && full[k] == p;
            if k < rest.len() {
                assert(rest[k] == p);
                lemma_adapter_paths_sound(objs.drop_last(), p);
                let i = choose|i: int|
                    0 <= i < objs.drop_last().len()
                        && (#[trigger] objs.drop_last()[i]).object_path@ == p
                        && object_has_interface(objs.drop_last()[i], adapter_interface());
                assert(objs[i] == objs.drop_last()[i]);
            } else {
                assert(objs[objs.len() - 1] == objs.last());
            }
        } else {
            lemma_adapter_paths_sound(objs.drop_last(), p);
            let i = choose|i: int|
                0 <= i < objs.drop_last().len() && (#[trigger] objs.drop_last()[i]).object_path@
                    == p && object_has_interface(objs.drop_last()[i], adapter_interface());
            assert(objs[i] == objs.drop_last()[i]);
        }
    }
}

/// Whether an object is a child of `parent`: it advertises `iface` and
/// publishes `parent` under the given parent property.
pub open spec fn is_child_of(
    o: ObjectRecord,
    iface: Seq<char>,
    parent: Seq<char>,
    prop: Seq<char>,
) -> bool {
    match lookup_property(o, iface, prop) {
        Some(v) => v.path_value() == Some(parent),
        None => false,
    }
}

/// The paths of the children of `parent`, in snapshot order.
pub open spec fn child_paths(
    objs: Seq<ObjectRecord>,
    iface: Seq<char>,
    parent: Seq<char>,
    prop: Seq<char>,
) -> Seq<Seq<char>>
    decreases objs.len(),
{
    if objs.len() == 0 {
        Seq::empty()
    } else {
        let rest = child_paths(objs.drop_last(), iface, parent, prop);
        if is_child_of(objs.last(), iface, parent, prop) {
            rest.push(objs.last().object_path@)
        } else {
            rest
        }
    }
}

/// Law: every child of the parent is enumerated under its path; in
/// particular no child of this parent is left out.
pub proof fn lemma_child_paths_complete(
    objs: Seq<ObjectRecord>,
    iface: Seq<char>,
    parent: Seq<char>,
    prop: Seq<char>,
    i: int,
)
    requires
        0 <= i < objs.len(),
        is_child_of(objs[i], iface, parent, prop),
    ensures
        child_paths(objs, iface, parent, prop).contains(objs[i].object_path@),
    decreases objs.len(),
{
    let rest = child_paths(objs.drop_last(), iface, parent, prop);
    if i == objs.len() - 1 {
        let full = rest.push(objs.last().object_path@);
        assert(full[rest.len() as int] == objs[i].object_path@);
    } else {
        assert(objs.drop_last()[i] == objs[i]);
        lemma_child_paths_complete(objs.drop_last(), iface, parent, prop, i);
        let p = objs[i].object_path@;
        let k = choose|k: int| 0 <= k < rest.len() && rest[k] == p;
        if is_child_of(objs.last(), iface, parent, prop) {
            assert(rest.push(objs.last().object_path@)[k] == p);
        }
    }
}

/// Law: every enumerated child path belongs to an object that advertises
/// the child interface with this very parent; siblings of other parents
/// are excluded.
pub proof fn lemma_child_paths_sound(
    objs: Seq<ObjectRecord>,
    iface: Seq<char>,
    parent: Seq<char>,
    prop: Seq<char>,
    p: Seq<char>,
)
    requires
        child_paths(objs, iface, parent, prop).contains(p),
    ensures
        exists|i: int|
            0 <= i < objs.len() && (#[trigger] objs[i]).object_path@ == p && is_child_of(
                objs[i],
                iface,
                parent,
                prop,
            ),
    decreases objs.len(),
{
    if objs.len() == 0 {
        assert(child_paths(objs, iface, parent, prop).len() == 0);
    } else {
        let rest = child_paths(objs.drop_last(), iface, parent, prop);
        if is_child_of(objs.last(), iface, parent, prop) {
            let full = rest.push(objs.last().object_path@);
            let k = choose|k: int| 0 <= k < full.len() && full[k] == p;
            if k < rest.len() {
                assert(rest[k] == p);
                lemma_child_paths_sound(objs.drop_last(), iface, parent, prop, p);
                let i = choose|i: int|
                    0 <= i < objs.drop_last().len()
                        && (#[trigger] objs.drop_last()[i]).object_path@ == p
                        && is_child_of(objs.drop_last()[i], iface, parent, prop);
                assert(objs[i] == objs.drop_last()[i]);
            } else {
                assert(objs[objs.len() - 1] == objs.last());
            }
        } else {
            lemma_child_paths_sound(objs.drop_last(), iface, parent, prop, p);
            let i = choose|i: int|
                0 <= i < objs.drop_last().len()
                    && (#[trigger] objs.drop_last()[i]).object_path@ == p
                    && is_child_of(objs.drop_last()[i], iface, parent, prop);
            assert(objs[i] == objs.drop_last()[i]);
        }
    }
}

/// Enumerates the objects that implement `item_interface` and publish
/// `item_path` under the parent property `item_property`: exactly the
/// children of that parent, in snapshot order.
fn list_item(
    objects: &Vec<ObjectRecord>,
    item_interface: &str,
    item_path: &str,
    item_property: &str,
) -> (r: Vec<String>)
    ensures
        r.deep_view() == child_paths(objects@, item_interface@, item_path@, item_property@),
{
    let mut out: Vec<String> = Vec::new();
    let mut i: usize = 0;
    while i < objects.len()
        invariant
            i <= objects.len(),
            out.deep_view() =~= child_paths(
                objects@.take(i as int),
                item_interface@,
                item_path@,
                item_property@,
            ),
        decreases objects.len() - i,
    {
        proof {
            assert(objects@.take(i as int + 1).drop_last() =~= objects@.take(i as int));
            assert(objects@.take(i as int + 1).last() == objects@[i as int]);
        }
        let is_child = match lookup_property_exec(&objects[i], item_interface, item_property) {
            Some(v) => match v {
                BusValue::Str(s) => str_eq(s.as_str(), item_path),
                BusValue::ObjectPath(s) => str_eq(s.as_str(), item_path),
                _ => false,
            },
            None => false,
        };
        if is_child {
            out.push(objects[i].object_path.clone());
        }
        i = i + 1;
    }
    proof {
        assert(objects@.take(objects@.len() as int) =~= objects@);
    }
    out
}

/// The devices enumerated under an adapter.
pub fn list_devices(objects: &Vec<ObjectRecord>, adapter_path: &String) -> (r: Vec<String>)
    ensures
        r.deep_view() == child_paths(objects@, device_interface(), adapter_path@, "Adapter"@),
{
    list_item(objects, "org.bluez.Device1", adapter_path.as_str(), "Adapter")
}

/// The GATT services enumerated under a device.
pub fn list_services(objects: &Vec<ObjectRecord>, device_path: &String) -> (r: Vec<String>)
    ensures
        r.deep_view() == child_paths(objects@, service_interface(), device_path@, "Device"@),
{
    list_item(objects, "org.bluez.GattService1", device_path.as_str(), "Device")
}

/// The GATT characteristics enumerated under a service.
pub fn list_characteristics(objects: &Vec<ObjectRecord>, service_path: &String) -> (r: Vec<
    String,
>)
    ensures
        r.deep_view() == child_paths(
            objects@,
            characteristic_interface(),
            service_path@,
            "Service"@,
        ),
{
    list_item(objects, "org.bluez.GattCharacteristic1", service_path.as_str(), "Service")
}

/// The GATT descriptors enumerated under a characteristic.
pub fn list_descriptors(objects: &Vec<ObjectRecord>, characteristic_path: &String) -> (r: Vec<
    String,
>)
    ensures
        r.deep_view() == child_paths(
            objects@,
            descriptor_interface(),
            characteristic_path@,
            "Characteristic"@,
        ),
{
    list_item(
        objects,
        "org.bluez.GattDescriptor1",
        characteristic_path.as_str(),
        "Characteristic",
    )
}

/// The object-manager enumeration request: the transport performs it and
/// hands back the snapshot that the lookups of this module read.
pub fn get_managed_objects_call() -> (r: MethodCall)
    ensures
        r.service@ == bluez_service(),
        r.object_path@ == "/"@,
        r.interface@ == object_manager_interface(),
        r.member@ == "GetManagedObjects"@,
        r.args@.len() == 0,
        r.timeout_ms == 1000,
{
    MethodCall {
        service: "org.bluez".to_owned(),
        object_path: "/".to_owned(),
        interface: "org.freedesktop.DBus.ObjectManager".to_owned(),
        member: "GetManagedObjects".to_owned(),
        args: Vec::new(),
        timeout_ms: 1000,
    }
}

/// Builds the write of a writable property; the daemon validates the value.
pub fn set_property(
    interface: &str,
    object_path: &str,
    prop: &str,
    value: BusValue,
    timeout_ms: i32,
) -> (r: PropSet)
    requires
        timeout_ms >= 0,
    ensures
        r.interface@ == interface@,
        r.object_path@ == object_path@,
        r.name@ == prop@,
        r.value == value,
        r.timeout_ms == timeout_ms,
{
    PropSet {
        interface: interface.to_owned(),
        object_path: object_path.to_owned(),
        name: prop.to_owned(),
        value,
        timeout_ms,
    }
}

/// Builds a method invocation addressed to the daemon.
pub fn call_method(
    interface: &str,
    object_path: &str,
    method: &str,
    param: Option<Vec<BusValue>>,
    timeout_ms: i32,
) -> (r: MethodCall)
    requires
        timeout_ms >= 0,
    ensures
        r.service@ == bluez_service(),
        r.object_path@ == object_path@,
        r.interface@ == interface@,
        r.member@ == method@,
        (match param {
            Some(p) => r.args == p,
            None => r.args@.len() == 0,
        }),
        r.timeout_ms == timeout_ms,
{
    let args = match param {
        Some(p) => p,
        None => Vec::new(),
    };
    MethodCall {
        service: "org.bluez".to_owned(),
        object_path: object_path.to_owned(),
        interface: interface.to_owned(),
        member: method.to_owned(),
        args,
        timeout_ms,
    }
}

} // verus!
