//! A scoped discovery capability bound to an adapter.
//!
//! Discovery is started and stopped through requests addressed to the
//! adapter; a session does not stop discovery on drop, so every successful
//! start is the caller's obligation to match with a stop.

use vstd::prelude::*;
use crate::BlurzError;
use crate::bus_types::{BusValue, MethodCall};
use crate::bluetooth_utils;
use crate::bluetooth_utils::{adapter_interface, bluez_service};

verus! {

/// Whether a dictionary value is the discovery filter for the given
/// options: the UUID list always present, and the RSSI and pathloss keys
/// present exactly when the caller provided them.
pub open spec fn is_discovery_filter(
    v: BusValue,
    uuids: Seq<Seq<char>>,
    rssi: Option<i16>,
    pathloss: Option<u16>,
) -> bool {
    match v {
        BusValue::Dict(entries) => {
            &&& entries@.len() == 1 + (if rssi is Some {
                1int
            } else {
                0int
            }) + (if pathloss is Some {
                1int
            } else {
                0int
            })
            &&& entries@[0].0.str_value() == Some("UUIDs"@)
            &&& match entries@[0].1 {
                BusValue::Variant(inner) => (*inner).string_array_value() == Some(uuids),
                _ => false,
            }
            &&& match rssi {
                Some(rv) => entries@[1].0.str_value() == Some("RSSI"@) && (match entries@[1].1 {
                    BusValue::Variant(inner) => *inner == BusValue::I16(rv),
                    _ => false,
                }),
                None => true,
            }
            &&& match pathloss {
                Some(pl) => {
                    let idx: int = if rssi is Some {
                        2
                    } else {
                        1
                    };
                    entries@[idx].0.str_value() == Some("Pathloss"@) && (match entries@[idx].1 {
                        BusValue::Variant(inner) => *inner == BusValue::U16(pl),
                        _ => false,
                    })
                },
                None => true,
            }
        },
        _ => false,
    }
}

/// How the daemon's discovering flag answers a request addressed to the
/// adapter: the start request raises it, the stop request clears it, and
/// any other member leaves it unchanged.
pub open spec fn discovering_after(member: Seq<char>, before: bool) -> bool {
    if member == "StartDiscovery"@ {
        true
    } else if member == "StopDiscovery"@ {
        false
    } else {
        before
    }
}

/// Law: a start followed by a stop leaves the daemon's discovering flag
/// false, whatever the adapter's prior state was.
pub proof fn lemma_discovery_scoping(start: MethodCall, stop: MethodCall, before: bool)
    requires
        start.member@ == "StartDiscovery"@,
        stop.member@ == "StopDiscovery"@,
    ensures
        !discovering_after(stop.member@, discovering_after(start.member@, before)),
{
    broadcast use vstd::string::group_string_axioms;

    reveal_strlit("StartDiscovery");
    reveal_strlit("StopDiscovery");
    assert("StartDiscovery"@.len() == 14);
    assert("StopDiscovery"@.len() == 13);
}

/// A scoped discovery capability: the path of the adapter it drives.
#[derive(Debug, Clone, PartialEq, Eq)]
pub struct BluetoothDiscoverySession {
    adapter: String,
}

impl View for BluetoothDiscoverySession {
    type V = Seq<char>;

    closed spec fn view(&self) -> Seq<char> {
        self.adapter@
    }
}

impl BluetoothDiscoverySession {
    pub fn create_session(adapter: String) -> (r: Result<BluetoothDiscoverySession, BlurzError>)
        ensures
            r matches Ok(s) && s@ == adapter@,
    {
        Ok(BluetoothDiscoverySession::new(adapter))
    }

    fn new(adapter: String) -> (r: BluetoothDiscoverySession)
        ensures
            r@ == adapter@,
    {
        BluetoothDiscoverySession { adapter }
    }

    fn call_method(&self, method: &str, param: Option<Vec<BusValue>>) -> (r: MethodCall)
        ensures
            r.service@ == bluez_service(),
            r.object_path@ == self@,
            r.interface@ == adapter_interface(),
            r.member@ == method@,
            (match param {
                Some(p) => r.args == p,
                None => r.args@.len() == 0,
            }),
            r.timeout_ms == 1000,
    {
        bluetooth_utils::call_method(
            "org.bluez.Adapter1",
            self.adapter.as_str(),
            method,
            param,
            1000,
        )
    }

    /// Builds the request that starts discovery on the adapter.
    pub fn start_discovery(&self) -> (r: MethodCall)
        ensures
            r.service@ == bluez_service(),
            r.object_path@ == self@,
            r.interface@ == adapter_interface(),
            r.member@ == "StartDiscovery"@,
            r.args@.len() == 0,
            r.timeout_ms == 1000,
            discovering_after(r.member@, false) && discovering_after(r.member@, true),
    {
        proof {
            reveal_strlit("StartDiscovery");
        }
        self.call_method("StartDiscovery", None)
    }

    /// Builds the request that stops discovery on the adapter.  Against an
    /// adapter that is not discovering, the daemon rejects the request and
    /// the transport surfaces its error.
    pub fn stop_discovery(&self) -> (r: MethodCall)
        ensures
            r.service@ == bluez_service(),
            r.object_path@ == self@,
            r.interface@ == adapter_interface(),
            r.member@ == "StopDiscovery"@,
            r.args@.len() == 0,
            r.timeout_ms == 1000,
            !discovering_after(r.member@, false) && !discovering_after(r.member@, true),
    {
        proof {
            broadcast use vstd::string::group_string_axioms;

            reveal_strlit("StartDiscovery");
            reveal_strlit("StopDiscovery");
            assert("StartDiscovery"@.len() == 14);
            assert("StopDiscovery"@.len() == 13);
        }
        self.call_method("StopDiscovery", None)
    }

    /// Builds the request that installs a discovery filter: a dictionary
    /// with the UUID list, and the RSSI and pathloss thresholds present
    /// exactly when given.
    pub fn set_discovery_filter(
        &self,
        uuids: Vec<String>,
        rssi: Option<i16>,
        pathloss: Option<u16>,
    ) -> (r: MethodCall)
        ensures
            r.service@ == bluez_service(),
            r.object_path@ == self@,
            r.interface@ == adapter_interface(),
            r.member@ == "SetDiscoveryFilter"@,
            r.args@.len() == 1,
            is_discovery_filter(r.args@[0], uuids.deep_view(), rssi, pathloss),
            r.timeout_ms == 1000,
    {
        let mut entries: Vec<(BusValue, BusValue)> = Vec::new();
        entries.push(
            (BusValue::Str("UUIDs".to_owned()), BusValue::Variant(
                Box::new(BusValue::string_array(uuids)),
            )),
        );
        match rssi {
            Some(rv) => {
                entries.push(
                    (BusValue::Str("RSSI".to_owned()), BusValue::Variant(
                        Box::new(BusValue::I16(rv)),
                    )),
                );
            }
            None => {}
        }
        match pathloss {
            Some(pl) => {
                entries.push(
                    (BusValue::Str("Pathloss".to_owned()), BusValue::Variant(
                        Box::new(BusValue::U16(pl)),
                    )),
                );
            }
            None => {}
        }
        let mut args: Vec<BusValue> = Vec::new();
        args.push(BusValue::Dict(entries));
        self.call_method("SetDiscoveryFilter", Some(args))
    }
}

} // verus!
