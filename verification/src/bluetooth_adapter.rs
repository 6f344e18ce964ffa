//! The proxy for a Bluetooth adapter published by the daemon.

use vstd::prelude::*;
use crate::BlurzError;
use crate::bluetooth_device::BluetoothDevice;
use crate::bus_types::{BusValue, MethodCall, ObjectRecord, PropSet};
use crate::bluetooth_utils;
use crate::bluetooth_utils::{adapter_interface, adapter_paths, bool_property, child_paths,
    device_interface, graph_lookup, string_list_property, string_property, u32_property};

verus! {

pub open spec fn is_hex_digit(c: char) -> bool {
    ||| ('0' as u32) <= (c as u32) && (c as u32) <= ('9' as u32)
    ||| ('a' as u32) <= (c as u32) && (c as u32) <= ('f' as u32)
    ||| ('A' as u32) <= (c as u32) && (c as u32) <= ('F' as u32)
}

pub open spec fn hex_digit_value(c: char) -> u32 {
    if ('0' as u32) <= (c as u32) && (c as u32) <= ('9' as u32) {
        ((c as u32) - ('0' as u32)) as u32
    } else if ('a' as u32) <= (c as u32) && (c as u32) <= ('f' as u32) {
        ((c as u32) - ('a' as u32) + 10) as u32
    } else {
        ((c as u32) - ('A' as u32) + 10) as u32
    }
}

/// The value of four big-endian hex digits.
pub open spec fn hex4_value(s: Seq<char>) -> u32 {
    (hex_digit_value(s[0]) * 4096 + hex_digit_value(s[1]) * 256 + hex_digit_value(s[2]) * 16
        + hex_digit_value(s[3])) as u32
}

/// The index of the first colon of `s`, or `s.len()` if there is none.
pub open spec fn first_colon(s: Seq<char>) -> int
    decreases s.len(),
{
    if s.len() == 0 {
        0
    } else if s.first() == ':' {
        0
    } else {
        1 + first_colon(s.drop_first())
    }
}

/// The modalias grammar: a source prefix, a colon, then `v`, `p` and `d`
/// markers each followed by four hex digits.
pub open spec fn valid_modalias(s: Seq<char>) -> bool {
    let c = first_colon(s);
    &&& c < s.len()
    &&& s.len() == c + 16
    &&& s[c + 1] == 'v'
    &&& s[c + 6] == 'p'
    &&& s[c + 11] == 'd'
    &&& forall|i: int| c + 2 <= i < c + 6 ==> is_hex_digit(#[trigger] s[i])
    &&& forall|i: int| c + 7 <= i < c + 11 ==> is_hex_digit(#[trigger] s[i])
    &&& forall|i: int| c + 12 <= i < c + 16 ==> is_hex_digit(#[trigger] s[i])
}

pub open spec fn modalias_source(s: Seq<char>) -> Seq<char> {
    s.take(first_colon(s))
}

pub open spec fn modalias_vendor(s: Seq<char>) -> u32 {
    hex4_value(s.subrange(first_colon(s) + 2, first_colon(s) + 6))
}

pub open spec fn modalias_product(s: Seq<char>) -> u32 {
    hex4_value(s.subrange(first_colon(s) + 7, first_colon(s) + 11))
}

pub open spec fn modalias_device(s: Seq<char>) -> u32 {
    hex4_value(s.subrange(first_colon(s) + 12, first_colon(s) + 16))
}

fn hex_digit(c: char) -> (r: Option<u32>)
    ensures
        is_hex_digit(c) ==> r == Some(hex_digit_value(c)),
        !is_hex_digit(c) ==> r is None,
        r matches Some(v) ==> v < 16,
{
    let u = c as u32;
    if u >= '0' as u32 && u <= '9' as u32 {
        Some(u - '0' as u32)
    } else if u >= 'a' as u32 && u <= 'f' as u32 {
        Some(u - 'a' as u32 + 10)
    } else if u >= 'A' as u32 && u <= 'F' as u32 {
        Some(u - 'A' as u32 + 10)
    } else {
        None
    }
}

fn parse_hex4(m: &str, start: usize) -> (r: Option<u32>)
    requires
        start + 4 <= m@.len(),
    ensures
        (forall|i: int| start <= i < start + 4 ==> is_hex_digit(#[trigger] m@[i])) ==> r == Some(
            hex4_value(m@.subrange(start as int, start as int + 4)),
        ),
        !(forall|i: int| start <= i < start + 4 ==> is_hex_digit(#[trigger] m@[i])) ==> r is None,
{
    let n = m.unicode_len();
    let d0 = match hex_digit(m.get_char(start)) {
        Some(d) => d,
        None => {
            return None;
        }
    };
    let d1 = match hex_digit(m.get_char(start + 1)) {
        Some(d) => d,
        None => {
            return None;
        }
    };
    let d2 = match hex_digit(m.get_char(start + 2)) {
        Some(d) => d,
        None => {
            return None;
        }
    };
    let d3 = match hex_digit(m.get_char(start + 3)) {
        Some(d) => d,
        None => {
            return None;
        }
    };
    let v = d0 * 4096 + d1 * 256 + d2 * 16 + d3;
    proof {
        let sub = m@.subrange(start as int, start as int + 4);
        assert(sub[0] == m@[start as int]);
        assert(sub[1] == m@[start as int + 1]);
        assert(sub[2] == m@[start as int + 2]);
        assert(sub[3] == m@[start as int + 3]);
    }
    Some(v)
}

fn find_colon(m: &str) -> (r: usize)
    ensures
        r as int == first_colon(m@),
{
    let n = m.unicode_len();
    let mut i: usize = 0;
    proof {
        assert(m@.skip(0) =~= m@);
    }
    while i < n
        invariant
            i <= n,
            n == m@.len(),
            first_colon(m@) == i + first_colon(m@.skip(i as int)),
        decreases n - i,
    {
        proof {
            assert(m@.skip(i as int).first() == m@[i as int]);
            assert(m@.skip(i as int).drop_first() =~= m@.skip(i as int + 1));
        }
        if m.get_char(i) == ':' {
            return i;
        }
        i = i + 1;
    }
    proof {
        assert(m@.skip(n as int).len() == 0);
    }
    n
}

/// Parses a modalias string `<src>:v<VVVV>p<PPPP>d<DDDD>` into its source
/// and the vendor, product and device identifiers; each numeric field is
/// four big-endian hex digits.  Malformed inputs are rejected.
pub fn parse_modalias(m: &str) -> (r: Result<(String, u32, u32, u32), BlurzError>)
    ensures
        valid_modalias(m@) ==> (r matches Ok(t) && t.0@ == modalias_source(m@) && t.1
            == modalias_vendor(m@) && t.2 == modalias_product(m@) && t.3 == modalias_device(m@)),
        !valid_modalias(m@) ==> (r matches Err(e) && e is Unknown),
{
    let n = m.unicode_len();
    let colon = find_colon(m);
    if colon >= n {
        return Err(BlurzError::Unknown("malformed modalias".to_owned()));
    }
    if n - colon != 16 {
        return Err(BlurzError::Unknown("malformed modalias".to_owned()));
    }
    if m.get_char(colon + 1) != 'v' || m.get_char(colon + 6) != 'p' || m.get_char(colon + 11)
        != 'd' {
        return Err(BlurzError::Unknown("malformed modalias".to_owned()));
    }
    let vendor = match parse_hex4(m, colon + 2) {
        Some(v) => v,
        None => {
            return Err(BlurzError::Unknown("malformed modalias".to_owned()));
        }
    };
    let product = match parse_hex4(m, colon + 7) {
        Some(v) => v,
        None => {
            return Err(BlurzError::Unknown("malformed modalias".to_owned()));
        }
    };
    let device = match parse_hex4(m, colon + 12) {
        Some(v) => v,
        None => {
            return Err(BlurzError::Unknown("malformed modalias".to_owned()));
        }
    };
    let source = m.substring_char(0, colon).to_owned();
    proof {
        assert(m@.take(colon as int) =~= m@.subrange(0, colon as int));
    }
    Ok((source, vendor, product, device))
}

/// A lightweight handle for an adapter: the path of the remote object.
#[derive(Debug, Clone, PartialEq, Eq)]
pub struct BluetoothAdapter {
    object_path: String,
}

impl View for BluetoothAdapter {
    type V = Seq<char>;

    closed spec fn view(&self) -> Seq<char> {
        self.object_path@
    }
}

impl BluetoothAdapter {
    fn new(object_path: String) -> (r: BluetoothAdapter)
        ensures
            r@ == object_path@,
    {
        BluetoothAdapter { object_path }
    }

    /// Picks the first adapter the daemon enumerates; with no adapter
    /// published, the adapter is reported missing.
    pub fn init(objects: &Vec<ObjectRecord>) -> (r: Result<BluetoothAdapter, BlurzError>)
        ensures
            adapter_paths(objects@).len() == 0 ==> (r matches Err(e) && e
                == BlurzError::AdapterNotFound),
            adapter_paths(objects@).len() > 0 ==> (r matches Ok(a) && a@ == adapter_paths(
                objects@,
            )[0]),
    {
        let adapters = bluetooth_utils::get_adapters(objects);
        if adapters.is_empty() {
            return Err(BlurzError::AdapterNotFound);
        }
        proof {
            assert(adapters.deep_view()[0] == adapters@[0]@);
        }
        Ok(BluetoothAdapter::new(adapters[0].clone()))
    }

    /// Opens the adapter at a known path, validating that the daemon indeed
    /// publishes an adapter there.
    pub fn create_adapter(objects: &Vec<ObjectRecord>, object_path: String) -> (r: Result<
        BluetoothAdapter,
        BlurzError,
    >)
        ensures
            adapter_paths(objects@).contains(object_path@) ==> (r matches Ok(a) && a@
                == object_path@),
            !adapter_paths(objects@).contains(object_path@) ==> (r matches Err(e) && e
                == BlurzError::AdapterNotFound),
    {
        let adapters = bluetooth_utils::get_adapters(objects);
        let mut i: usize = 0;
        while i < adapters.len()
            invariant
                i <= adapters.len(),
                adapters.deep_view() == adapter_paths(objects@),
                forall|j: int| 0 <= j < i ==> adapters@[j]@ != object_path@,
            decreases adapters.len() - i,
        {
            proof {
                assert(adapters.deep_view()[i as int] == adapters@[i as int]@);
            }
            if crate::bus_types::str_eq(adapters[i].as_str(), object_path.as_str()) {
                proof {
                    assert(adapter_paths(objects@)[i as int] == object_path@);
                    assert(adapter_paths(objects@).contains(object_path@));
                }
                return Ok(BluetoothAdapter::new(object_path));
            }
            i = i + 1;
        }
        proof {
            assert forall|j: int| 0 <= j < adapter_paths(objects@).len() implies adapter_paths(
                objects@,
            )[j] != object_path@ by {
                assert(adapters.deep_view()[j] == adapters@[j]@);
            }
        }
        Err(BlurzError::AdapterNotFound)
    }

    pub fn get_id(&self) -> (r: String)
        ensures
            r@ == self@,
    {
        self.object_path.clone()
    }

    /// The first device enumerated under this adapter; an empty enumeration
    /// is reported as no device found.
    pub fn get_first_device(&self, objects: &Vec<ObjectRecord>) -> (r: Result<
        BluetoothDevice,
        BlurzError,
    >)
        ensures
            child_paths(objects@, device_interface(), self@, "Adapter"@).len() == 0 ==> (
            r matches Err(e) && e == BlurzError::NoDeviceFound),
            child_paths(objects@, device_interface(), self@, "Adapter"@).len() > 0 ==> (
            r matches Ok(d) && d@ == child_paths(objects@, device_interface(), self@, "Adapter"@)[0]),
    {
        let devices = bluetooth_utils::list_devices(objects, &self.object_path);
        if devices.is_empty() {
            return Err(BlurzError::NoDeviceFound);
        }
        proof {
            assert(devices.deep_view()[0] == devices@[0]@);
        }
        Ok(BluetoothDevice::new(devices[0].clone()))
    }

    /// The devices enumerated under this adapter, in snapshot order.
    pub fn get_device_list(&self, objects: &Vec<ObjectRecord>) -> (r: Vec<String>)
        ensures
            r.deep_view() == child_paths(objects@, device_interface(), self@, "Adapter"@),
    {
        bluetooth_utils::list_devices(objects, &self.object_path)
    }

    fn get_property<'a>(&self, objects: &'a Vec<ObjectRecord>, prop: &str) -> (r: Result<
        &'a BusValue,
        BlurzError,
    >)
        ensures
            match graph_lookup(objects@, self@, adapter_interface(), prop@) {
                Some(v) => r matches Ok(x) && *x == v,
                None => r matches Err(e) && e is BusError,
            },
    {
        bluetooth_utils::get_property(
            objects,
            "org.bluez.Adapter1",
            self.object_path.as_str(),
            prop,
        )
    }

    fn set_property(&self, prop: &str, value: BusValue, timeout_ms: i32) -> (r: PropSet)
        requires
            timeout_ms >= 0,
        ensures
            r.interface@ == adapter_interface(),
            r.object_path@ == self@,
            r.name@ == prop@,
            r.value == value,
            r.timeout_ms == timeout_ms,
    {
        bluetooth_utils::set_property(
            "org.bluez.Adapter1",
            self.object_path.as_str(),
            prop,
            value,
            timeout_ms,
        )
    }

    fn call_method(&self, method: &str, param: Option<Vec<BusValue>>, timeout_ms: i32) -> (r:
        MethodCall)
        requires
            timeout_ms >= 0,
        ensures
            r.service@ == bluetooth_utils::bluez_service(),
            r.object_path@ == self@,
            r.interface@ == adapter_interface(),
            r.member@ == method@,
            (match param {
                Some(p) => r.args == p,
                None => r.args@.len() == 0,
            }),
            r.timeout_ms == timeout_ms,
    {
        bluetooth_utils::call_method(
            "org.bluez.Adapter1",
            self.object_path.as_str(),
            method,
            param,
            timeout_ms,
        )
    }

    pub fn get_address(&self, objects: &Vec<ObjectRecord>) -> (r: Result<String, BlurzError>)
        ensures
            match string_property(objects@, self@, adapter_interface(), "Address"@) {
                Some(s) => r matches Ok(v) && v@ == s,
                None => r matches Err(e) && e is BusError,
            },
    {
        self.get_property(objects, "Address")?.as_string()
    }

    pub fn get_name(&self, objects: &Vec<ObjectRecord>) -> (r: Result<String, BlurzError>)
        ensures
            match string_property(objects@, self@, adapter_interface(), "Name"@) {
                Some(s) => r matches Ok(v) && v@ == s,
                None => r matches Err(e) && e is BusError,
            },
    {
        self.get_property(objects, "Name")?.as_string()
    }

    pub fn get_alias(&self, objects: &Vec<ObjectRecord>) -> (r: Result<String, BlurzError>)
        ensures
            match string_property(objects@, self@, adapter_interface(), "Alias"@) {
                Some(s) => r matches Ok(v) && v@ == s,
                None => r matches Err(e) && e is BusError,
            },
    {
        self.get_property(objects, "Alias")?.as_string()
    }

    pub fn set_alias(&self, value: String) -> (r: PropSet)
        ensures
            r.interface@ == adapter_interface(),
            r.object_path@ == self@,
            r.name@ == "Alias"@,
            r.value == BusValue::Str(value),
            r.timeout_ms == 1000,
    {
        self.set_property("Alias", BusValue::Str(value), 1000)
    }

    pub fn get_class(&self, objects: &Vec<ObjectRecord>) -> (r: Result<u32, BlurzError>)
        ensures
            match u32_property(objects@, self@, adapter_interface(), "Class"@) {
                Some(x) => r == Ok::<u32, BlurzError>(x),
                None => r matches Err(e) && e is BusError,
            },
    {
        self.get_property(objects, "Class")?.as_u32()
    }

    pub fn is_powered(&self, objects: &Vec<ObjectRecord>) -> (r: Result<bool, BlurzError>)
        ensures
            match bool_property(objects@, self@, adapter_interface(), "Powered"@) {
                Some(b) => r == Ok::<bool, BlurzError>(b),
                None => r matches Err(e) && e is BusError,
            },
    {
        self.get_property(objects, "Powered")?.as_bool()
    }

    /// Builds the write of the powered flag; powering an adapter may take
    /// a while, so the deadline is ten seconds.
    pub fn set_powered(&self, value: bool) -> (r: PropSet)
        ensures
            r.interface@ == adapter_interface(),
            r.object_path@ == self@,
            r.name@ == "Powered"@,
            r.value == BusValue::Bool(value),
            r.timeout_ms == 10000,
    {
        self.set_property("Powered", BusValue::Bool(value), 10000)
    }

    pub fn is_discoverable(&self, objects: &Vec<ObjectRecord>) -> (r: Result<bool, BlurzError>)
        ensures
            match bool_property(objects@, self@, adapter_interface(), "Discoverable"@) {
                Some(b) => r == Ok::<bool, BlurzError>(b),
                None => r matches Err(e) && e is BusError,
            },
    {
        self.get_property(objects, "Discoverable")?.as_bool()
    }

    pub fn set_discoverable(&self, value: bool) -> (r: PropSet)
        ensures
            r.interface@ == adapter_interface(),
            r.object_path@ == self@,
            r.name@ == "Discoverable"@,
            r.value == BusValue::Bool(value),
            r.timeout_ms == 1000,
    {
        self.set_property("Discoverable", BusValue::Bool(value), 1000)
    }

    pub fn is_pairable(&self, objects: &Vec<ObjectRecord>) -> (r: Result<bool, BlurzError>)
        ensures
            match bool_property(objects@, self@, adapter_interface(), "Pairable"@) {
                Some(b) => r == Ok::<bool, BlurzError>(b),
                None => r matches Err(e) && e is BusError,
            },
    {
        self.get_property(objects, "Pairable")?.as_bool()
    }

    pub fn set_pairable(&self, value: bool) -> (r: PropSet)
        ensures
            r.interface@ == adapter_interface(),
            r.object_path@ == self@,
            r.name@ == "Pairable"@,
            r.value == BusValue::Bool(value),
            r.timeout_ms == 1000,
    {
        self.set_property("Pairable", BusValue::Bool(value), 1000)
    }

    pub fn get_pairable_timeout(&self, objects: &Vec<ObjectRecord>) -> (r: Result<
        u32,
        BlurzError,
    >)
        ensures
            match u32_property(objects@, self@, adapter_interface(), "PairableTimeout"@) {
                Some(x) => r == Ok::<u32, BlurzError>(x),
                None => r matches Err(e) && e is BusError,
            },
    {
        self.get_property(objects, "PairableTimeout")?.as_u32()
    }

    pub fn set_pairable_timeout(&self, value: u32) -> (r: PropSet)
        ensures
            r.interface@ == adapter_interface(),
            r.object_path@ == self@,
            r.name@ == "PairableTimeout"@,
            r.value == BusValue::U32(value),
            r.timeout_ms == 1000,
    {
        self.set_property("PairableTimeout", BusValue::U32(value), 1000)
    }

    pub fn get_discoverable_timeout(&self, objects: &Vec<ObjectRecord>) -> (r: Result<
        u32,
        BlurzError,
    >)
        ensures
            match u32_property(objects@, self@, adapter_interface(), "DiscoverableTimeout"@) {
                Some(x) => r == Ok::<u32, BlurzError>(x),
                None => r matches Err(e) && e is BusError,
            },
    {
        self.get_property(objects, "DiscoverableTimeout")?.as_u32()
    }

    pub fn set_discoverable_timeout(&self, value: u32) -> (r: PropSet)
        ensures
            r.interface@ == adapter_interface(),
            r.object_path@ == self@,
            r.name@ == "DiscoverableTimeout"@,
            r.value == BusValue::U32(value),
            r.timeout_ms == 1000,
    {
        self.set_property("DiscoverableTimeout", BusValue::U32(value), 1000)
    }

    pub fn is_discovering(&self, objects: &Vec<ObjectRecord>) -> (r: Result<bool, BlurzError>)
        ensures
            match bool_property(objects@, self@, adapter_interface(), "Discovering"@) {
                Some(b) => r == Ok::<bool, BlurzError>(b),
                None => r matches Err(e) && e is BusError,
            },
    {
        self.get_property(objects, "Discovering")?.as_bool()
    }

    pub fn get_uuids(&self, objects: &Vec<ObjectRecord>) -> (r: Result<Vec<String>, BlurzError>)
        ensures
            match string_list_property(objects@, self@, adapter_interface(), "UUIDs"@) {
                Some(s) => r matches Ok(v) && v.deep_view() == s,
                None => r matches Err(e) && e is BusError,
            },
    {
        self.get_property(objects, "UUIDs")?.as_string_list()
    }

    /// Reads and parses the adapter's modalias.
    pub fn get_modalias(&self, objects: &Vec<ObjectRecord>) -> (r: Result<
        (String, u32, u32, u32),
        BlurzError,
    >)
        ensures
            match string_property(objects@, self@, adapter_interface(), "Modalias"@) {
                Some(s) => {
                    &&& valid_modalias(s) ==> (r matches Ok(t) && t.0@ == modalias_source(s)
                        && t.1 == modalias_vendor(s) && t.2 == modalias_product(s) && t.3
                        == modalias_device(s))
                    &&& !valid_modalias(s) ==> (r matches Err(e) && e is Unknown)
                },
                None => r matches Err(e) && e is BusError,
            },
    {
        let raw = self.get_property(objects, "Modalias")?.as_string()?;
        parse_modalias(raw.as_str())
    }

    pub fn get_vendor_id_source(&self, objects: &Vec<ObjectRecord>) -> (r: Result<
        String,
        BlurzError,
    >)
        ensures
            match string_property(objects@, self@, adapter_interface(), "Modalias"@) {
                Some(s) => {
                    &&& valid_modalias(s) ==> (r matches Ok(v) && v@ == modalias_source(s))
                    &&& !valid_modalias(s) ==> (r matches Err(e) && e is Unknown)
                },
                None => r matches Err(e) && e is BusError,
            },
    {
        let (source, _, _, _) = self.get_modalias(objects)?;
        Ok(source)
    }

    pub fn get_vendor_id(&self, objects: &Vec<ObjectRecord>) -> (r: Result<u32, BlurzError>)
        ensures
            match string_property(objects@, self@, adapter_interface(), "Modalias"@) {
                Some(s) => {
                    &&& valid_modalias(s) ==> r == Ok::<u32, BlurzError>(modalias_vendor(s))
                    &&& !valid_modalias(s) ==> (r matches Err(e) && e is Unknown)
                },
                None => r matches Err(e) && e is BusError,
            },
    {
        let (_, vendor, _, _) = self.get_modalias(objects)?;
        Ok(vendor)
    }

    pub fn get_product_id(&self, objects: &Vec<ObjectRecord>) -> (r: Result<u32, BlurzError>)
        ensures
            match string_property(objects@, self@, adapter_interface(), "Modalias"@) {
                Some(s) => {
                    &&& valid_modalias(s) ==> r == Ok::<u32, BlurzError>(modalias_product(s))
                    &&& !valid_modalias(s) ==> (r matches Err(e) && e is Unknown)
                },
                None => r matches Err(e) && e is BusError,
            },
    {
        let (_, _, product, _) = self.get_modalias(objects)?;
        Ok(product)
    }

    pub fn get_device_id(&self, objects: &Vec<ObjectRecord>) -> (r: Result<u32, BlurzError>)
        ensures
            match string_property(objects@, self@, adapter_interface(), "Modalias"@) {
                Some(s) => {
                    &&& valid_modalias(s) ==> r == Ok::<u32, BlurzError>(modalias_device(s))
                    &&& !valid_modalias(s) ==> (r matches Err(e) && e is Unknown)
                },
                None => r matches Err(e) && e is BusError,
            },
    {
        let (_, _, _, device) = self.get_modalias(objects)?;
        Ok(device)
    }

    /// Discovery on the adapter itself is a legacy entry point and always
    /// fails, naming the discovery session as the replacement.
    pub fn start_discovery(&self) -> (r: Result<(), BlurzError>)
        ensures
            r matches Err(e) && e matches BlurzError::DeprecatedFeature(s) && s@
                == "Discovery Session"@,
    {
        Err(BlurzError::DeprecatedFeature("Discovery Session".to_owned()))
    }

    /// Legacy counterpart of `start_discovery`; it always fails the same way.
    pub fn stop_discovery(&self) -> (r: Result<(), BlurzError>)
        ensures
            r matches Err(e) && e matches BlurzError::DeprecatedFeature(s) && s@
                == "Discovery Session"@,
    {
        Err(BlurzError::DeprecatedFeature("Discovery Session".to_owned()))
    }

    /// Builds the request that removes a device and its pairing information.
    pub fn remove_device(&self, device: String) -> (r: MethodCall)
        ensures
            r.service@ == bluetooth_utils::bluez_service(),
            r.object_path@ == self@,
            r.interface@ == adapter_interface(),
            r.member@ == "RemoveDevice"@,
            r.args@.len() == 1,
            r.args@[0] == BusValue::ObjectPath(device),
            r.timeout_ms == 1000,
    {
        let mut args: Vec<BusValue> = Vec::new();
        args.push(BusValue::ObjectPath(device));
        self.call_method("RemoveDevice", Some(args), 1000)
    }
}

} // verus!
