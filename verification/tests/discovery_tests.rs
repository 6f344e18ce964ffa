use blurz::BlurzError;
use blurz::bluetooth_discovery_session::BluetoothDiscoverySession;
use blurz::bus_types::{BusValue, MethodCall};

/// A minimal stand-in for the daemon's discovery state: it accepts the
/// requests the session builds and keeps the discovering flag.
struct MockDiscoveryDaemon {
    discovering: bool,
}

impl MockDiscoveryDaemon {
    fn perform(&mut self, call: &MethodCall) -> Result<(), BlurzError> {
        assert_eq!(call.service, "org.bluez");
        assert_eq!(call.interface, "org.bluez.Adapter1");
        match call.member.as_str() {
            "StartDiscovery" => {
                self.discovering = true;
                Ok(())
            }
            "StopDiscovery" => {
                if self.discovering {
                    self.discovering = false;
                    Ok(())
                } else {
                    Err(BlurzError::BusError("No discovery started".to_string()))
                }
            }
            _ => Ok(()),
        }
    }
}

#[test]
fn start_then_stop_restores_not_discovering() {
    let session = BluetoothDiscoverySession::create_session("/a0".to_string()).unwrap();
    let mut daemon = MockDiscoveryDaemon { discovering: false };
    daemon.perform(&session.start_discovery()).unwrap();
    assert!(daemon.discovering);
    daemon.perform(&session.stop_discovery()).unwrap();
    assert!(!daemon.discovering);
}

#[test]
fn stop_without_start_surfaces_the_daemon_error() {
    let session = BluetoothDiscoverySession::create_session("/a0".to_string()).unwrap();
    let mut daemon = MockDiscoveryDaemon { discovering: false };
    match daemon.perform(&session.stop_discovery()) {
        Err(BlurzError::BusError(_)) => {}
        other => panic!("expected BusError, got {:?}", other),
    }
}

#[test]
fn start_and_stop_requests_address_the_adapter() {
    let session = BluetoothDiscoverySession::create_session("/org/bluez/hci0".to_string())
        .unwrap();
    let start = session.start_discovery();
    assert_eq!(start.object_path, "/org/bluez/hci0");
    assert_eq!(start.member, "StartDiscovery");
    assert_eq!(start.args, Vec::<BusValue>::new());
    assert_eq!(start.timeout_ms, 1000);
    let stop = session.stop_discovery();
    assert_eq!(stop.member, "StopDiscovery");
    assert_eq!(stop.args, Vec::<BusValue>::new());
}

#[test]
fn scenario_filter_with_rssi_and_no_pathloss() {
    let session = BluetoothDiscoverySession::create_session("/a0".to_string()).unwrap();
    let uuid = "00001812-0000-1000-8000-00805f9b34fb";
    let call = session.set_discovery_filter(vec![uuid.to_string()], Some(-80), None);
    assert_eq!(call.member, "SetDiscoveryFilter");
    assert_eq!(call.object_path, "/a0");
    assert_eq!(call.args.len(), 1);
    match &call.args[0] {
        BusValue::Dict(entries) => {
            assert_eq!(entries.len(), 2);
            assert_eq!(entries[0].0, BusValue::Str("UUIDs".to_string()));
            assert_eq!(
                entries[0].1,
                BusValue::Variant(Box::new(BusValue::Array(vec![BusValue::Str(
                    uuid.to_string()
                )])))
            );
            assert_eq!(entries[1].0, BusValue::Str("RSSI".to_string()));
            assert_eq!(entries[1].1, BusValue::Variant(Box::new(BusValue::I16(-80))));
        }
        other => panic!("expected a dictionary, got {:?}", other),
    }
}

#[test]
fn filter_with_all_options() {
    let session = BluetoothDiscoverySession::create_session("/a0".to_string()).unwrap();
    let call = session.set_discovery_filter(vec![], Some(-42), Some(7));
    match &call.args[0] {
        BusValue::Dict(entries) => {
            assert_eq!(entries.len(), 3);
            assert_eq!(
                entries[0].1,
                BusValue::Variant(Box::new(BusValue::Array(vec![])))
            );
            assert_eq!(entries[1].0, BusValue::Str("RSSI".to_string()));
            assert_eq!(entries[2].0, BusValue::Str("Pathloss".to_string()));
            assert_eq!(entries[2].1, BusValue::Variant(Box::new(BusValue::U16(7))));
        }
        other => panic!("expected a dictionary, got {:?}", other),
    }
}

#[test]
fn filter_with_uuids_only() {
    let session = BluetoothDiscoverySession::create_session("/a0".to_string()).unwrap();
    let call = session.set_discovery_filter(vec!["u1".to_string(), "u2".to_string()], None, None);
    match &call.args[0] {
        BusValue::Dict(entries) => {
            assert_eq!(entries.len(), 1);
            assert_eq!(entries[0].0, BusValue::Str("UUIDs".to_string()));
            assert_eq!(
                entries[0].1,
                BusValue::Variant(Box::new(BusValue::Array(vec![
                    BusValue::Str("u1".to_string()),
                    BusValue::Str("u2".to_string()),
                ])))
            );
        }
        other => panic!("expected a dictionary, got {:?}", other),
    }
}
