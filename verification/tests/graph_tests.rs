use blurz::BlurzError;
use blurz::bluetooth_adapter::BluetoothAdapter;
use blurz::bluetooth_device::BluetoothDevice;
use blurz::bluetooth_session::BluetoothSession;
use blurz::bluetooth_utils::{get_adapters, get_property, list_devices};
use blurz::bus_types::{BusValue, InterfaceRecord, ObjectRecord, PropertyRecord};

fn iface(name: &str, props: Vec<(&str, BusValue)>) -> InterfaceRecord {
    InterfaceRecord {
        name: name.to_string(),
        properties: props
            .into_iter()
            .map(|(n, v)| PropertyRecord { name: n.to_string(), value: v })
            .collect(),
    }
}

fn object(path: &str, interfaces: Vec<InterfaceRecord>) -> ObjectRecord {
    ObjectRecord { object_path: path.to_string(), interfaces }
}

fn adapter_object(path: &str) -> ObjectRecord {
    object(path, vec![iface("org.bluez.Adapter1", vec![])])
}

fn device_object(path: &str, adapter: &str, uuids: Vec<&str>) -> ObjectRecord {
    object(
        path,
        vec![iface(
            "org.bluez.Device1",
            vec![
                ("Adapter", BusValue::ObjectPath(adapter.to_string())),
                (
                    "UUIDs",
                    BusValue::Array(
                        uuids.into_iter().map(|u| BusValue::Str(u.to_string())).collect(),
                    ),
                ),
            ],
        )],
    )
}

#[test]
fn adapters_of_empty_graph() {
    let objects: Vec<ObjectRecord> = Vec::new();
    assert_eq!(get_adapters(&objects), Vec::<String>::new());
}

#[test]
fn adapters_are_exactly_the_adapter_interfaces() {
    let objects = vec![
        adapter_object("/a0"),
        device_object("/a0/d1", "/a0", vec![]),
        adapter_object("/a1"),
        object("/other", vec![iface("org.freedesktop.DBus.Introspectable", vec![])]),
    ];
    assert_eq!(get_adapters(&objects), vec!["/a0".to_string(), "/a1".to_string()]);
}

#[test]
fn init_picks_the_first_adapter() {
    let objects = vec![adapter_object("/a1"), adapter_object("/a0")];
    let adapter = BluetoothAdapter::init(&objects).unwrap();
    assert_eq!(adapter.get_id(), "/a1");
}

#[test]
fn init_with_no_adapter_fails() {
    let objects = vec![device_object("/a0/d1", "/a0", vec![])];
    match BluetoothAdapter::init(&objects) {
        Err(BlurzError::AdapterNotFound) => {}
        other => panic!("expected AdapterNotFound, got {:?}", other),
    }
}

#[test]
fn create_adapter_validates_the_path() {
    let objects = vec![adapter_object("/a0"), adapter_object("/a1")];
    let adapter = BluetoothAdapter::create_adapter(&objects, "/a1".to_string()).unwrap();
    assert_eq!(adapter.get_id(), "/a1");
    match BluetoothAdapter::create_adapter(&objects, "/a2".to_string()) {
        Err(BlurzError::AdapterNotFound) => {}
        other => panic!("expected AdapterNotFound, got {:?}", other),
    }
}

#[test]
fn children_of_a_parent_exclude_other_siblings() {
    let objects = vec![
        adapter_object("/a0"),
        adapter_object("/a1"),
        device_object("/a0/d1", "/a0", vec![]),
        device_object("/a1/d2", "/a1", vec![]),
        device_object("/a0/d3", "/a0", vec![]),
    ];
    assert_eq!(
        list_devices(&objects, &"/a0".to_string()),
        vec!["/a0/d1".to_string(), "/a0/d3".to_string()]
    );
    assert_eq!(list_devices(&objects, &"/a1".to_string()), vec!["/a1/d2".to_string()]);
    assert_eq!(list_devices(&objects, &"/a2".to_string()), Vec::<String>::new());
}

#[test]
fn get_first_device_and_empty_enumeration() {
    let objects = vec![adapter_object("/a0"), device_object("/a0/d1", "/a0", vec![])];
    let adapter = BluetoothAdapter::init(&objects).unwrap();
    let device = adapter.get_first_device(&objects).unwrap();
    assert_eq!(device.get_id(), "/a0/d1");

    let bare = vec![adapter_object("/a0")];
    match adapter.get_first_device(&bare) {
        Err(BlurzError::NoDeviceFound) => {}
        other => panic!("expected NoDeviceFound, got {:?}", other),
    }
}

#[test]
fn missing_property_is_a_bus_error() {
    let objects = vec![adapter_object("/a0")];
    match get_property(&objects, "org.bluez.Adapter1", "/a0", "Address") {
        Err(BlurzError::BusError(_)) => {}
        other => panic!("expected BusError, got {:?}", other),
    }
    match get_property(&objects, "org.bluez.Adapter1", "/a9", "Address") {
        Err(BlurzError::BusError(_)) => {}
        other => panic!("expected BusError, got {:?}", other),
    }
}

#[test]
fn scenario_first_adapter_id() {
    let session = BluetoothSession::create_session(None).unwrap();
    assert_eq!(session.get_match_rule(), "type='signal',sender='org.bluez'");
    let objects = vec![adapter_object("/a0")];
    let adapter = BluetoothAdapter::init(&objects).unwrap();
    assert_eq!(adapter.get_id(), "/a0");
}

#[test]
fn scenario_device_list_and_uuids() {
    let uuid = "0000180f-0000-1000-8000-00805f9b34fb";
    let objects = vec![adapter_object("/a0"), device_object("/a0/d1", "/a0", vec![uuid])];
    let adapter = BluetoothAdapter::init(&objects).unwrap();
    assert_eq!(adapter.get_device_list(&objects), vec!["/a0/d1".to_string()]);
    let device = BluetoothDevice::new("/a0/d1".to_string());
    assert_eq!(device.get_uuids(&objects).unwrap(), vec![uuid.to_string()]);
}

#[test]
fn session_match_rule_with_path() {
    let session = BluetoothSession::create_session(Some("/org/bluez/hci0")).unwrap();
    assert_eq!(
        session.get_match_rule(),
        "type='signal',sender='org.bluez',path='/org/bluez/hci0'"
    );
}
