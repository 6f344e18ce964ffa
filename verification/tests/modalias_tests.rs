use blurz::BlurzError;
use blurz::bluetooth_adapter::{BluetoothAdapter, parse_modalias};
use blurz::bus_types::{BusValue, InterfaceRecord, ObjectRecord, PropertyRecord};

fn graph_with_modalias(m: &str) -> Vec<ObjectRecord> {
    vec![ObjectRecord {
        object_path: "/a0".to_string(),
        interfaces: vec![InterfaceRecord {
            name: "org.bluez.Adapter1".to_string(),
            properties: vec![PropertyRecord {
                name: "Modalias".to_string(),
                value: BusValue::Str(m.to_string()),
            }],
        }],
    }]
}

#[test]
fn parse_canonical_modalias() {
    let parsed = parse_modalias("usb:v1D6Bp0246d052A").unwrap();
    assert_eq!(parsed, ("usb".to_string(), 0x1D6B, 0x0246, 0x052A));
}

#[test]
fn parse_lower_case_hex() {
    let parsed = parse_modalias("pci:v0a5cp21e8d0012").unwrap();
    assert_eq!(parsed, ("pci".to_string(), 0x0a5c, 0x21e8, 0x0012));
}

#[test]
fn malformed_modalias_is_unknown() {
    let bad = [
        "",
        "usb",
        "usb:",
        "usb:v1D6Bp0246d052",
        "usb:v1D6Bp0246d052AA",
        "usb:x1D6Bp0246d052A",
        "usb:v1D6Bq0246d052A",
        "usb:v1D6Bp0246e052A",
        "usb:v1G6Bp0246d052A",
    ];
    for m in bad {
        match parse_modalias(m) {
            Err(BlurzError::Unknown(_)) => {}
            other => panic!("expected Unknown for {:?}, got {:?}", m, other),
        }
    }
}

#[test]
fn modalias_through_the_adapter() {
    let objects = graph_with_modalias("usb:v1D6Bp0246d052A");
    let adapter = BluetoothAdapter::init(&objects).unwrap();
    assert_eq!(
        adapter.get_modalias(&objects).unwrap(),
        ("usb".to_string(), 0x1D6B, 0x0246, 0x052A)
    );
    assert_eq!(adapter.get_vendor_id_source(&objects).unwrap(), "usb");
    assert_eq!(adapter.get_vendor_id(&objects).unwrap(), 0x1D6B);
    assert_eq!(adapter.get_product_id(&objects).unwrap(), 0x0246);
    assert_eq!(adapter.get_device_id(&objects).unwrap(), 0x052A);
}

#[test]
fn modalias_missing_is_a_bus_error() {
    let objects = vec![ObjectRecord {
        object_path: "/a0".to_string(),
        interfaces: vec![InterfaceRecord {
            name: "org.bluez.Adapter1".to_string(),
            properties: vec![],
        }],
    }];
    let adapter = BluetoothAdapter::init(&objects).unwrap();
    match adapter.get_modalias(&objects) {
        Err(BlurzError::BusError(_)) => {}
        other => panic!("expected BusError, got {:?}", other),
    }
}
