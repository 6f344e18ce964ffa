//! The event decoder: typed domain events out of raw broadcast signals.
//!
//! A signal that changes a recognized property of an adapter, device,
//! characteristic or descriptor, or that adds or removes interfaces under
//! a path, decodes to a typed event.  Signals of any other shape decode to
//! nothing; they are not errors.

use vstd::prelude::*;
use crate::bus_types::{BusValue, SignalMessage, str_eq};
use crate::bluetooth_utils::{adapter_interface, characteristic_interface, descriptor_interface,
    device_interface, object_manager_interface};

verus! {

/// A decoded signal, carrying the path of the object it concerns and the
/// typed payload of the change.
#[derive(Debug, PartialEq)]
pub enum BluetoothEvent {
    Powered { object_path: String, powered: bool },
    Discoverable { object_path: String, discoverable: bool },
    Discovering { object_path: String, discovering: bool },
    Pairable { object_path: String, pairable: bool },
    Connected { object_path: String, connected: bool },
    Paired { object_path: String, paired: bool },
    ServicesResolved { object_path: String, services_resolved: bool },
    RSSI { object_path: String, rssi: i16 },
    ManufacturerData { object_path: String, data: Vec<(u16, Vec<u8>)> },
    Value { object_path: String, value: Vec<u8> },
    Notifying { object_path: String, notifying: bool },
    DescriptorValue { object_path: String, value: Vec<u8> },
    InterfacesAdded { object_path: String, interfaces: Vec<String> },
    InterfacesRemoved { object_path: String, interfaces: Vec<String> },
}

/// The mathematical shape of a decoded event.
pub enum BluetoothEventModel {
    Powered { object_path: Seq<char>, powered: bool },
    Discoverable { object_path: Seq<char>, discoverable: bool },
    Discovering { object_path: Seq<char>, discovering: bool },
    Pairable { object_path: Seq<char>, pairable: bool },
    Connected { object_path: Seq<char>, connected: bool },
    Paired { object_path: Seq<char>, paired: bool },
    ServicesResolved { object_path: Seq<char>, services_resolved: bool },
    RSSI { object_path: Seq<char>, rssi: i16 },
    ManufacturerData { object_path: Seq<char>, data: Seq<(u16, Seq<u8>)> },
    Value { object_path: Seq<char>, value: Seq<u8> },
    Notifying { object_path: Seq<char>, notifying: bool },
    DescriptorValue { object_path: Seq<char>, value: Seq<u8> },
    InterfacesAdded { object_path: Seq<char>, interfaces: Seq<Seq<char>> },
    InterfacesRemoved { object_path: Seq<char>, interfaces: Seq<Seq<char>> },
}

impl View for BluetoothEvent {
    type V = BluetoothEventModel;

    open spec fn view(&self) -> BluetoothEventModel {
        match self {
            BluetoothEvent::Powered { object_path, powered } => BluetoothEventModel::Powered {
                object_path: object_path@,
                powered: *powered,
            },
            BluetoothEvent::Discoverable { object_path, discoverable } =>
                BluetoothEventModel::Discoverable {
                object_path: object_path@,
                discoverable: *discoverable,
            },
            BluetoothEvent::Discovering { object_path, discovering } =>
                BluetoothEventModel::Discovering {
                object_path: object_path@,
                discovering: *discovering,
            },
            BluetoothEvent::Pairable { object_path, pairable } => BluetoothEventModel::Pairable {
                object_path: object_path@,
                pairable: *pairable,
            },
            BluetoothEvent::Connected { object_path, connected } =>
                BluetoothEventModel::Connected {
                object_path: object_path@,
                connected: *connected,
            },
            BluetoothEvent::Paired { object_path, paired } => BluetoothEventModel::Paired {
                object_path: object_path@,
                paired: *paired,
            },
            BluetoothEvent::ServicesResolved { object_path, services_resolved } =>
                BluetoothEventModel::ServicesResolved {
                object_path: object_path@,
                services_resolved: *services_resolved,
            },
            BluetoothEvent::RSSI { object_path, rssi } => BluetoothEventModel::RSSI {
                object_path: object_path@,
                rssi: *rssi,
            },
            BluetoothEvent::ManufacturerData { object_path, data } =>
                BluetoothEventModel::ManufacturerData {
                object_path: object_path@,
                data: Seq::new(data@.len(), |i: int| (data@[i].0, data@[i].1@)),
            },
            BluetoothEvent::Value { object_path, value } => BluetoothEventModel::Value {
                object_path: object_path@,
                value: value@,
            },
            BluetoothEvent::Notifying { object_path, notifying } =>
                BluetoothEventModel::Notifying {
                object_path: object_path@,
                notifying: *notifying,
            },
            BluetoothEvent::DescriptorValue { object_path, value } =>
                BluetoothEventModel::DescriptorValue {
                object_path: object_path@,
                value: value@,
            },
            BluetoothEvent::InterfacesAdded { object_path, interfaces } =>
                BluetoothEventModel::InterfacesAdded {
                object_path: object_path@,
                interfaces: interfaces.deep_view(),
            },
            BluetoothEvent::InterfacesRemoved { object_path, interfaces } =>
                BluetoothEventModel::InterfacesRemoved {
                object_path: object_path@,
                interfaces: interfaces.deep_view(),
            },
        }
    }
}

pub open spec fn properties_interface() -> Seq<char> {
    "org.freedesktop.DBus.Properties"@
}

/// The event a single changed property decodes to, keyed by the interface
/// that changed and the property's name; a name or value of an unknown
/// shape decodes to nothing.
pub open spec fn property_event(
    path: Seq<char>,
    iface: Seq<char>,
    name: Seq<char>,
    value: BusValue,
) -> Option<BluetoothEventModel> {
    if iface == adapter_interface() {
        if name == "Powered"@ {
            match value.bool_value() {
                Some(b) => Some(BluetoothEventModel::Powered { object_path: path, powered: b }),
                None => None,
            }
        } else if name == "Discoverable"@ {
            match value.bool_value() {
                Some(b) => Some(
                    BluetoothEventModel::Discoverable { object_path: path, discoverable: b },
                ),
                None => None,
            }
        } else if name == "Discovering"@ {
            match value.bool_value() {
                Some(b) => Some(
                    BluetoothEventModel::Discovering { object_path: path, discovering: b },
                ),
                None => None,
            }
        } else if name == "Pairable"@ {
            match value.bool_value() {
                Some(b) => Some(BluetoothEventModel::Pairable { object_path: path, pairable: b }),
                None => None,
            }
        } else {
            None
        }
    } else if iface == device_interface() {
        if name == "Connected"@ {
            match value.bool_value() {
                Some(b) => Some(
                    BluetoothEventModel::Connected { object_path: path, connected: b },
                ),
                None => None,
            }
        } else if name == "Paired"@ {
            match value.bool_value() {
                Some(b) => Some(BluetoothEventModel::Paired { object_path: path, paired: b }),
                None => None,
            }
        } else if name == "ServicesResolved"@ {
            match value.bool_value() {
                Some(b) => Some(
                    BluetoothEventModel::ServicesResolved {
                        object_path: path,
                        services_resolved: b,
                    },
                ),
                None => None,
            }
        } else if name == "RSSI"@ {
            match value.i16_value() {
                Some(x) => Some(BluetoothEventModel::RSSI { object_path: path, rssi: x }),
                None => None,
            }
        } else if name == "ManufacturerData"@ {
            match value.u16_bytes_dict_value() {
                Some(d) => Some(
                    BluetoothEventModel::ManufacturerData { object_path: path, data: d },
                ),
                None => None,
            }
        } else {
            None
        }
    } else if iface == characteristic_interface() {
        if name == "Value"@ {
            match value.byte_array_value() {
                Some(v) => Some(BluetoothEventModel::Value { object_path: path, value: v }),
                None => None,
            }
        } else if name == "Notifying"@ {
            match value.bool_value() {
                Some(b) => Some(
                    BluetoothEventModel::Notifying { object_path: path, notifying: b },
                ),
                None => None,
            }
        } else {
            None
        }
    } else if iface == descriptor_interface() {
        if name == "Value"@ {
            match value.byte_array_value() {
                Some(v) => Some(
                    BluetoothEventModel::DescriptorValue { object_path: path, value: v },
                ),
                None => None,
            }
        } else {
            None
        }
    } else {
        None
    }
}

/// The first recognized property of a changed-property dictionary, in
/// dictionary order.
pub open spec fn scan_changed(
    path: Seq<char>,
    iface: Seq<char>,
    entries: Seq<(BusValue, BusValue)>,
) -> Option<BluetoothEventModel>
    decreases entries.len(),
{
    if entries.len() == 0 {
        None
    } else {
        let head = match entries.first().0.str_value() {
            Some(name) => property_event(path, iface, name, entries.first().1),
            None => None,
        };
        if head is Some {
            head
        } else {
            scan_changed(path, iface, entries.drop_first())
        }
    }
}

/// The string views of a dictionary's keys, when every key is a string.
pub open spec fn dict_string_keys(entries: Seq<(BusValue, BusValue)>) -> Option<Seq<Seq<char>>> {
    if forall|i: int| 0 <= i < entries.len() ==> (#[trigger] entries[i]).0 is Str {
        Some(Seq::new(entries.len(), |i: int| match entries[i].0 {
            BusValue::Str(s) => s@,
            _ => Seq::empty(),
        }))
    } else {
        None
    }
}

/// What a raw signal decodes to: a changed-property event, an
/// interfaces-added or interfaces-removed event, or nothing for any other
/// shape.
pub open spec fn decode_signal(msg: SignalMessage) -> Option<BluetoothEventModel> {
    if msg.interface@ == properties_interface() && msg.member@ == "PropertiesChanged"@ {
        if msg.body@.len() >= 2 {
            match msg.body@[0].str_value() {
                Some(iface) => match msg.body@[1] {
                    BusValue::Dict(entries) => scan_changed(msg.object_path@, iface, entries@),
                    _ => None,
                },
                None => None,
            }
        } else {
            None
        }
    } else if msg.interface@ == object_manager_interface() && msg.member@
        == "InterfacesAdded"@ {
        if msg.body@.len() >= 2 {
            match msg.body@[0].path_value() {
                Some(p) => match msg.body@[1] {
                    BusValue::Dict(entries) => match dict_string_keys(entries@) {
                        Some(names) => Some(
                            BluetoothEventModel::InterfacesAdded {
                                object_path: p,
                                interfaces: names,
                            },
                        ),
                        None => None,
                    },
                    _ => None,
                },
                None => None,
            }
        } else {
            None
        }
    } else if msg.interface@ == object_manager_interface() && msg.member@
        == "InterfacesRemoved"@ {
        if msg.body@.len() >= 2 {
            match msg.body@[0].path_value() {
                Some(p) => match msg.body@[1].string_array_value() {
                    Some(names) => Some(
                        BluetoothEventModel::InterfacesRemoved {
                            object_path: p,
                            interfaces: names,
                        },
                    ),
                    None => None,
                },
                None => None,
            }
        } else {
            None
        }
    } else {
        None
    }
}

fn property_event_exec(path: &String, iface: &str, name: &str, value: &BusValue) -> (r: Option<
    BluetoothEvent,
>)
    ensures
        match property_event(path@, iface@, name@, *value) {
            Some(m) => r matches Some(e) && e@ == m,
            None => r is None,
        },
{
    if str_eq(iface, "org.bluez.Adapter1") {
        if str_eq(name, "Powered") {
            match value {
                BusValue::Bool(b) => Some(
                    BluetoothEvent::Powered { object_path: path.clone(), powered: *b },
                ),
                _ => None,
            }
        } else if str_eq(name, "Discoverable") {
            match value {
                BusValue::Bool(b) => Some(
                    BluetoothEvent::Discoverable { object_path: path.clone(), discoverable: *b },
                ),
                _ => None,
            }
        } else if str_eq(name, "Discovering") {
            match value {
                BusValue::Bool(b) => Some(
                    BluetoothEvent::Discovering { object_path: path.clone(), discovering: *b },
                ),
                _ => None,
            }
        } else if str_eq(name, "Pairable") {
            match value {
                BusValue::Bool(b) => Some(
                    BluetoothEvent::Pairable { object_path: path.clone(), pairable: *b },
                ),
                _ => None,
            }
        } else {
            None
        }
    } else if str_eq(iface, "org.bluez.Device1") {
        if str_eq(name, "Connected") {
            match value {
                BusValue::Bool(b) => Some(
                    BluetoothEvent::Connected { object_path: path.clone(), connected: *b },
                ),
                _ => None,
            }
        } else if str_eq(name, "Paired") {
            match value {
                BusValue::Bool(b) => Some(
                    BluetoothEvent::Paired { object_path: path.clone(), paired: *b },
                ),
                _ => None,
            }
        } else if str_eq(name, "ServicesResolved") {
            match value {
                BusValue::Bool(b) => Some(
                    BluetoothEvent::ServicesResolved {
                        object_path: path.clone(),
                        services_resolved: *b,
                    },
                ),
                _ => None,
            }
        } else if str_eq(name, "RSSI") {
            match value {
                BusValue::I16(x) => Some(
                    BluetoothEvent::RSSI { object_path: path.clone(), rssi: *x },
                ),
                _ => None,
            }
        } else if str_eq(name, "ManufacturerData") {
            match value.as_u16_bytes_dict() {
                Ok(d) => {
                    let e = BluetoothEvent::ManufacturerData {
                        object_path: path.clone(),
                        data: d,
                    };
                    proof {
                        assert(e@ matches BluetoothEventModel::ManufacturerData {
                            object_path: p,
                            data,
                        } && data =~= value.u16_bytes_dict_value().unwrap());
                    }
                    Some(e)
                }
                Err(_) => None,
            }
        } else {
            None
        }
    } else if str_eq(iface, "org.bluez.GattCharacteristic1") {
        if str_eq(name, "Value") {
            match value.as_byte_list() {
                Ok(v) => Some(BluetoothEvent::Value { object_path: path.clone(), value: v }),
                Err(_) => None,
            }
        } else if str_eq(name, "Notifying") {
            match value {
                BusValue::Bool(b) => Some(
                    BluetoothEvent::Notifying { object_path: path.clone(), notifying: *b },
                ),
                _ => None,
            }
        } else {
            None
        }
    } else if str_eq(iface, "org.bluez.GattDescriptor1") {
        if str_eq(name, "Value") {
            match value.as_byte_list() {
                Ok(v) => Some(
                    BluetoothEvent::DescriptorValue { object_path: path.clone(), value: v },
                ),
                Err(_) => None,
            }
        } else {
            None
        }
    } else {
        None
    }
}

impl BluetoothEvent {
    /// Decodes a raw signal into a typed event; a signal of an unknown
    /// shape decodes to nothing.
    pub fn from_signal(msg: &SignalMessage) -> (r: Option<BluetoothEvent>)
        ensures
            match decode_signal(*msg) {
                Some(m) => r matches Some(e) && e@ == m,
                None => r is None,
            },
    {
        if str_eq(msg.interface.as_str(), "org.freedesktop.DBus.Properties") && str_eq(
            msg.member.as_str(),
            "PropertiesChanged",
        ) {
            if msg.body.len() < 2 {
                return None;
            }
            let iface = match &msg.body[0] {
                BusValue::Str(s) => s,
                _ => {
                    return None;
                }
            };
            let entries = match &msg.body[1] {
                BusValue::Dict(entries) => entries,
                _ => {
                    return None;
                }
            };
            let mut i: usize = 0;
            proof {
                assert(entries@.skip(0) =~= entries@);
            }
            while i < entries.len()
                invariant
                    i <= entries.len(),
                    scan_changed(msg.object_path@, iface@, entries@) == scan_changed(
                        msg.object_path@,
                        iface@,
                        entries@.skip(i as int),
                    ),
                    decode_signal(*msg) == scan_changed(msg.object_path@, iface@, entries@),
                decreases entries.len() - i,
            {
                proof {
                    assert(entries@.skip(i as int).first() == entries@[i as int]);
                    assert(entries@.skip(i as int).drop_first() =~= entries@.skip(i as int + 1));
                }
                match &entries[i].0 {
                    BusValue::Str(name) => {
                        let decoded = property_event_exec(
                            &msg.object_path,
                            iface.as_str(),
                            name.as_str(),
                            &entries[i].1,
                        );
                        if decoded.is_some() {
                            return decoded;
                        }
                    }
                    _ => {}
                }
                i = i + 1;
            }
            proof {
                assert(entries@.skip(entries@.len() as int).len() == 0);
            }
            None
        } else if str_eq(msg.interface.as_str(), "org.freedesktop.DBus.ObjectManager") && str_eq(
            msg.member.as_str(),
            "InterfacesAdded",
        ) {
            if msg.body.len() < 2 {
                return None;
            }
            let p = match &msg.body[0] {
                BusValue::Str(s) => s.clone(),
                BusValue::ObjectPath(s) => s.clone(),
                _ => {
                    return None;
                }
            };
            let entries = match &msg.body[1] {
                BusValue::Dict(entries) => entries,
                _ => {
                    return None;
                }
            };
            let mut names: Vec<String> = Vec::new();
            let mut i: usize = 0;
            while i < entries.len()
                invariant
                    i <= entries.len(),
                    names@.len() == i,
                    decode_signal(*msg) == (match dict_string_keys(entries@) {
                        Some(ns) => Some(BluetoothEventModel::InterfacesAdded {
                            object_path: p@,
                            interfaces: ns,
                        }),
                        None => None,
                    }),
                    forall|j: int| 0 <= j < i ==> (#[trigger] entries@[j]).0 is Str,
                    forall|j: int| 0 <= j < i ==> (#[trigger] names@[j])@ == (match entries@[j].0 {
                        BusValue::Str(s) => s@,
                        _ => Seq::empty(),
                    }),
                decreases entries.len() - i,
            {
                match &entries[i].0 {
                    BusValue::Str(s) => {
                        names.push(s.clone());
                    }
                    _ => {
                        assert(entries@[i as int].0 !is Str);
                        return None;
                    }
                }
                i = i + 1;
            }
            let e = BluetoothEvent::InterfacesAdded { object_path: p, interfaces: names };
            proof {
                assert(e@ matches BluetoothEventModel::InterfacesAdded {
                    object_path: _,
                    interfaces,
                } && interfaces =~= dict_string_keys(entries@).unwrap());
            }
            Some(e)
        } else if str_eq(msg.interface.as_str(), "org.freedesktop.DBus.ObjectManager") && str_eq(
            msg.member.as_str(),
            "InterfacesRemoved",
        ) {
            if msg.body.len() < 2 {
                return None;
            }
            let p = match &msg.body[0] {
                BusValue::Str(s) => s.clone(),
                BusValue::ObjectPath(s) => s.clone(),
                _ => {
                    return None;
                }
            };
            let names = match msg.body[1].as_string_list() {
                Ok(v) => v,
                Err(_) => {
                    return None;
                }
            };
            Some(BluetoothEvent::InterfacesRemoved { object_path: p, interfaces: names })
        } else {
            None
        }
    }
}

} // verus!
