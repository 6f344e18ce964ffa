use blurz::BlurzError;
use blurz::bluetooth_adapter::BluetoothAdapter;
use blurz::bluetooth_device::BluetoothDevice;
use blurz::bus_types::{BusValue, InterfaceRecord, ObjectRecord, PropertyRecord};

fn adapter_graph(props: Vec<(&str, BusValue)>) -> Vec<ObjectRecord> {
    vec![ObjectRecord {
        object_path: "/a0".to_string(),
        interfaces: vec![InterfaceRecord {
            name: "org.bluez.Adapter1".to_string(),
            properties: props
                .into_iter()
                .map(|(n, v)| PropertyRecord { name: n.to_string(), value: v })
                .collect(),
        }],
    }]
}

fn device_graph(props: Vec<(&str, BusValue)>) -> Vec<ObjectRecord> {
    vec![ObjectRecord {
        object_path: "/a0/d1".to_string(),
        interfaces: vec![InterfaceRecord {
            name: "org.bluez.Device1".to_string(),
            properties: props
                .into_iter()
                .map(|(n, v)| PropertyRecord { name: n.to_string(), value: v })
                .collect(),
        }],
    }]
}

#[test]
fn string_property_round_trip() {
    let objects = adapter_graph(vec![("Alias", BusValue::Str("living room".to_string()))]);
    let adapter = BluetoothAdapter::init(&objects).unwrap();
    let alias = adapter.get_alias(&objects).unwrap();
    assert_eq!(alias, "living room");
    let write = adapter.set_alias(alias);
    assert_eq!(write.value, BusValue::Str("living room".to_string()));
    assert_eq!(write.interface, "org.bluez.Adapter1");
    assert_eq!(write.object_path, "/a0");
    assert_eq!(write.name, "Alias");
    assert_eq!(write.timeout_ms, 1000);
}

#[test]
fn bool_property_round_trip() {
    let objects = adapter_graph(vec![("Powered", BusValue::Bool(true))]);
    let adapter = BluetoothAdapter::init(&objects).unwrap();
    let powered = adapter.is_powered(&objects).unwrap();
    let write = adapter.set_powered(powered);
    assert_eq!(write.value, BusValue::Bool(true));
    assert_eq!(write.name, "Powered");
    assert_eq!(write.timeout_ms, 10000);
}

#[test]
fn u32_property_round_trip() {
    let objects = adapter_graph(vec![("DiscoverableTimeout", BusValue::U32(180))]);
    let adapter = BluetoothAdapter::init(&objects).unwrap();
    let timeout = adapter.get_discoverable_timeout(&objects).unwrap();
    let write = adapter.set_discoverable_timeout(timeout);
    assert_eq!(write.value, BusValue::U32(180));
    assert_eq!(write.name, "DiscoverableTimeout");
}

#[test]
fn pairable_and_discoverable_round_trip() {
    let objects = adapter_graph(vec![
        ("Pairable", BusValue::Bool(false)),
        ("Discoverable", BusValue::Bool(true)),
        ("PairableTimeout", BusValue::U32(30)),
    ]);
    let adapter = BluetoothAdapter::init(&objects).unwrap();
    assert_eq!(
        adapter.set_pairable(adapter.is_pairable(&objects).unwrap()).value,
        BusValue::Bool(false)
    );
    assert_eq!(
        adapter.set_discoverable(adapter.is_discoverable(&objects).unwrap()).value,
        BusValue::Bool(true)
    );
    assert_eq!(
        adapter.set_pairable_timeout(adapter.get_pairable_timeout(&objects).unwrap()).value,
        BusValue::U32(30)
    );
}

#[test]
fn adapter_plain_getters() {
    let objects = adapter_graph(vec![
        ("Address", BusValue::Str("00:11:22:33:44:55".to_string())),
        ("Name", BusValue::Str("hci0".to_string())),
        ("Class", BusValue::U32(0x1c010c)),
        ("Discovering", BusValue::Bool(false)),
        (
            "UUIDs",
            BusValue::Array(vec![BusValue::Str("0000110a-0000-1000-8000-00805f9b34fb".to_string())]),
        ),
    ]);
    let adapter = BluetoothAdapter::init(&objects).unwrap();
    assert_eq!(adapter.get_address(&objects).unwrap(), "00:11:22:33:44:55");
    assert_eq!(adapter.get_name(&objects).unwrap(), "hci0");
    assert_eq!(adapter.get_class(&objects).unwrap(), 0x1c010c);
    assert!(!adapter.is_discovering(&objects).unwrap());
    assert_eq!(
        adapter.get_uuids(&objects).unwrap(),
        vec!["0000110a-0000-1000-8000-00805f9b34fb".to_string()]
    );
}

#[test]
fn type_mismatch_is_a_bus_error() {
    let objects = adapter_graph(vec![("Powered", BusValue::Str("yes".to_string()))]);
    let adapter = BluetoothAdapter::init(&objects).unwrap();
    match adapter.is_powered(&objects) {
        Err(BlurzError::BusError(_)) => {}
        other => panic!("expected BusError, got {:?}", other),
    }
}

#[test]
fn device_typed_properties() {
    let objects = device_graph(vec![
        ("Address", BusValue::Str("AA:BB:CC:DD:EE:FF".to_string())),
        ("Appearance", BusValue::U16(961)),
        ("RSSI", BusValue::I16(-67)),
        ("TxPower", BusValue::I16(4)),
        ("Connected", BusValue::Bool(true)),
        ("ServicesResolved", BusValue::Bool(false)),
        (
            "ManufacturerData",
            BusValue::Dict(vec![(
                BusValue::U16(0x004c),
                BusValue::Array(vec![BusValue::Byte(0x02), BusValue::Byte(0x15)]),
            )]),
        ),
        (
            "ServiceData",
            BusValue::Dict(vec![(
                BusValue::Str("0000180f-0000-1000-8000-00805f9b34fb".to_string()),
                BusValue::Array(vec![BusValue::Byte(0x64)]),
            )]),
        ),
    ]);
    let device = BluetoothDevice::new("/a0/d1".to_string());
    assert_eq!(device.get_address(&objects).unwrap(), "AA:BB:CC:DD:EE:FF");
    assert_eq!(device.get_appearance(&objects).unwrap(), 961);
    assert_eq!(device.get_rssi(&objects).unwrap(), -67);
    assert_eq!(device.get_tx_power(&objects).unwrap(), 4);
    assert!(device.is_connected(&objects).unwrap());
    assert!(!device.is_services_resolved(&objects).unwrap());
    assert_eq!(
        device.get_manufacturer_data(&objects).unwrap(),
        vec![(0x004c, vec![0x02, 0x15])]
    );
    assert_eq!(
        device.get_service_data(&objects).unwrap(),
        vec![("0000180f-0000-1000-8000-00805f9b34fb".to_string(), vec![0x64])]
    );
}

#[test]
fn device_writes_and_methods() {
    let device = BluetoothDevice::new("/a0/d1".to_string());
    let trusted = device.set_trusted(true);
    assert_eq!(trusted.value, BusValue::Bool(true));
    assert_eq!(trusted.name, "Trusted");
    let blocked = device.set_blocked(false);
    assert_eq!(blocked.value, BusValue::Bool(false));
    assert_eq!(blocked.name, "Blocked");

    let connect = device.connect(10000);
    assert_eq!(connect.member, "Connect");
    assert_eq!(connect.timeout_ms, 10000);
    assert_eq!(connect.interface, "org.bluez.Device1");
    let disconnect = device.disconnect();
    assert_eq!(disconnect.member, "Disconnect");
    let pair = device.pair();
    assert_eq!(pair.member, "Pair");
    let cancel = device.cancel_pairing();
    assert_eq!(cancel.member, "CancelPairing");
    let profile = device.connect_profile("0000110a-0000-1000-8000-00805f9b34fb".to_string());
    assert_eq!(profile.member, "ConnectProfile");
    assert_eq!(
        profile.args,
        vec![BusValue::Str("0000110a-0000-1000-8000-00805f9b34fb".to_string())]
    );
    let profile = device.disconnect_profile("0000110a-0000-1000-8000-00805f9b34fb".to_string());
    assert_eq!(profile.member, "DisconnectProfile");
}

#[test]
fn legacy_discovery_guards() {
    let objects = adapter_graph(vec![("Discovering", BusValue::Bool(true))]);
    let adapter = BluetoothAdapter::init(&objects).unwrap();
    match adapter.start_discovery() {
        Err(BlurzError::DeprecatedFeature(name)) => assert_eq!(name, "Discovery Session"),
        other => panic!("expected DeprecatedFeature, got {:?}", other),
    }
    match adapter.stop_discovery() {
        Err(BlurzError::DeprecatedFeature(name)) => assert_eq!(name, "Discovery Session"),
        other => panic!("expected DeprecatedFeature, got {:?}", other),
    }
}

#[test]
fn remove_device_request() {
    let objects = adapter_graph(vec![]);
    let adapter = BluetoothAdapter::init(&objects).unwrap();
    let call = adapter.remove_device("/a0/d1".to_string());
    assert_eq!(call.service, "org.bluez");
    assert_eq!(call.object_path, "/a0");
    assert_eq!(call.member, "RemoveDevice");
    assert_eq!(call.args, vec![BusValue::ObjectPath("/a0/d1".to_string())]);
    assert_eq!(call.timeout_ms, 1000);
}
