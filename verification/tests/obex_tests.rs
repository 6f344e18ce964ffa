use blurz::BlurzError;
use blurz::bluetooth_device::BluetoothDevice;
use blurz::bluetooth_obex::{BluetoothOBEXSession, BluetoothOBEXTransfer, SessionTarget,
    TransferState, file_name};
use blurz::bus_types::{BusValue, InterfaceRecord, ObjectRecord, PropertyRecord,
    decode_object_path_reply};

fn device_graph() -> Vec<ObjectRecord> {
    vec![ObjectRecord {
        object_path: "/a0/d1".to_string(),
        interfaces: vec![InterfaceRecord {
            name: "org.bluez.Device1".to_string(),
            properties: vec![PropertyRecord {
                name: "Address".to_string(),
                value: BusValue::Str("AA:BB:CC:DD:EE:FF".to_string()),
            }],
        }],
    }]
}

fn transfer_graph(status: &str) -> Vec<ObjectRecord> {
    vec![ObjectRecord {
        object_path: "/org/bluez/obex/client/session0/transfer0".to_string(),
        interfaces: vec![InterfaceRecord {
            name: "org.bluez.obex.Transfer1".to_string(),
            properties: vec![PropertyRecord {
                name: "Status".to_string(),
                value: BusValue::Str(status.to_string()),
            }],
        }],
    }]
}

#[test]
fn target_and_state_names() {
    assert_eq!(SessionTarget::Ftp.as_str(), "ftp");
    assert_eq!(SessionTarget::Map_.as_str(), "map");
    assert_eq!(SessionTarget::Opp.as_str(), "opp");
    assert_eq!(SessionTarget::Pbap.as_str(), "pbap");
    assert_eq!(SessionTarget::Sync_.as_str(), "sync");
    assert_eq!(TransferState::Queued.as_str(), "queued");
    assert_eq!(TransferState::Active.as_str(), "active");
    assert_eq!(TransferState::Complete.as_str(), "complete");
    assert_eq!(TransferState::Suspended.as_str(), "suspended");
    assert_eq!(TransferState::Error.as_str(), "error");
}

#[test]
fn create_session_call_carries_address_and_target() {
    let device = BluetoothDevice::new("/a0/d1".to_string());
    let objects = device_graph();
    let call = BluetoothOBEXSession::create_session_call(&device, &objects).unwrap();
    assert_eq!(call.service, "org.bluez.obex");
    assert_eq!(call.object_path, "/org/bluez/obex");
    assert_eq!(call.interface, "org.bluez.obex.Client1");
    assert_eq!(call.member, "CreateSession");
    assert_eq!(call.args.len(), 2);
    assert_eq!(call.args[0], BusValue::Str("AA:BB:CC:DD:EE:FF".to_string()));
    assert_eq!(
        call.args[1],
        BusValue::Dict(vec![(
            BusValue::Str("Target".to_string()),
            BusValue::Variant(Box::new(BusValue::Str("opp".to_string()))),
        )])
    );
}

#[test]
fn create_session_call_without_address_fails() {
    let device = BluetoothDevice::new("/a0/d1".to_string());
    let objects: Vec<ObjectRecord> = Vec::new();
    match BluetoothOBEXSession::create_session_call(&device, &objects) {
        Err(BlurzError::BusError(_)) => {}
        other => panic!("expected BusError, got {:?}", other),
    }
}

#[test]
fn remove_session_request() {
    let session = BluetoothOBEXSession::new("/org/bluez/obex/client/session0".to_string());
    let call = session.remove_session().unwrap();
    assert_eq!(call.member, "RemoveSession");
    assert_eq!(
        call.args,
        vec![BusValue::ObjectPath("/org/bluez/obex/client/session0".to_string())]
    );
}

#[test]
fn remove_session_rejects_a_malformed_path() {
    for bad in ["", "session0", "/bad//path", "/trailing/", "/spa ce"] {
        let session = BluetoothOBEXSession::new(bad.to_string());
        match session.remove_session() {
            Err(BlurzError::Unknown(_)) => {}
            other => panic!("expected Unknown for {:?}, got {:?}", bad, other),
        }
    }
}

#[test]
fn send_file_request_and_transfer() {
    let session = BluetoothOBEXSession::new("/org/bluez/obex/client/session0".to_string());
    let call = BluetoothOBEXTransfer::send_file(&session, "/tmp/x.png");
    assert_eq!(call.service, "org.bluez.obex");
    assert_eq!(call.object_path, "/org/bluez/obex/client/session0");
    assert_eq!(call.interface, "org.bluez.obex.ObjectPush1");
    assert_eq!(call.member, "SendFile");
    assert_eq!(call.args, vec![BusValue::Str("/tmp/x.png".to_string())]);

    let reply = vec![BusValue::ObjectPath(
        "/org/bluez/obex/client/session0/transfer0".to_string(),
    )];
    let transfer_path = decode_object_path_reply(&reply).unwrap();
    let transfer = BluetoothOBEXTransfer::new(transfer_path, "/tmp/x.png");
    assert_eq!(transfer.get_id(), "/org/bluez/obex/client/session0/transfer0");
    assert_eq!(transfer.get_name(), "x.png");
}

#[test]
fn file_names_of_paths() {
    assert_eq!(file_name("/tmp/x.png"), "x.png");
    assert_eq!(file_name("x.png"), "x.png");
    assert_eq!(file_name("/tmp/dir/"), "dir");
    assert_eq!(file_name("a//"), "a");
    assert_eq!(file_name("/tmp/.."), "/tmp/..");
    assert_eq!(file_name("/"), "/");
    assert_eq!(file_name(""), "");
}

#[test]
fn status_reads_the_published_state() {
    let transfer = BluetoothOBEXTransfer::new(
        "/org/bluez/obex/client/session0/transfer0".to_string(),
        "/tmp/x.png",
    );
    assert_eq!(transfer.status(&transfer_graph("queued")).unwrap(), "queued");

    match transfer.status(&Vec::new()) {
        Err(BlurzError::BusError(_)) => {}
        other => panic!("expected BusError, got {:?}", other),
    }

    let mut mistyped = transfer_graph("queued");
    mistyped[0].interfaces[0].properties[0].value = BusValue::U32(1);
    match transfer.status(&mistyped) {
        Err(BlurzError::FailedToGetStatus) => {}
        other => panic!("expected FailedToGetStatus, got {:?}", other),
    }
}

#[test]
fn status_rejects_an_unknown_state_string() {
    let transfer = BluetoothOBEXTransfer::new(
        "/org/bluez/obex/client/session0/transfer0".to_string(),
        "/tmp/x.png",
    );
    for state in ["queued", "active", "suspended", "complete", "error"] {
        assert_eq!(transfer.status(&transfer_graph(state)).unwrap(), state);
    }
    match transfer.status(&transfer_graph("bogus")) {
        Err(BlurzError::FailedToGetStatus) => {}
        other => panic!("expected FailedToGetStatus, got {:?}", other),
    }
}

#[test]
fn scenario_push_completes_after_transitions() {
    // the mock transfer moves queued -> active -> complete over three reads
    let script = ["queued", "active", "complete"];
    let transfer = BluetoothOBEXTransfer::new(
        "/org/bluez/obex/client/session0/transfer0".to_string(),
        "/tmp/x.png",
    );
    let mut polls = 0;
    for status in script {
        polls += 1;
        let reading = transfer.status(&transfer_graph(status));
        if BluetoothOBEXTransfer::poll_done(&reading) {
            break;
        }
    }
    // two intermediate states, then the terminal read: at most N + 1 polls
    assert_eq!(polls, 3);
    assert!(polls <= script.len());
}

#[test]
fn poller_stops_promptly_on_error() {
    let err_reading: Result<String, BlurzError> =
        Err(BlurzError::BusError("gone".to_string()));
    assert!(BluetoothOBEXTransfer::poll_done(&err_reading));
    assert!(BluetoothOBEXTransfer::poll_done(&Ok("error".to_string())));
    assert!(BluetoothOBEXTransfer::poll_done(&Ok("complete".to_string())));
    assert!(!BluetoothOBEXTransfer::poll_done(&Ok("queued".to_string())));
    assert!(!BluetoothOBEXTransfer::poll_done(&Ok("active".to_string())));
    assert!(!BluetoothOBEXTransfer::poll_done(&Ok("suspended".to_string())));
}
