use blurz::BlurzError;
use blurz::bluetooth_gatt_characteristic::BluetoothGATTCharacteristic;
use blurz::bluetooth_gatt_descriptor::BluetoothGATTDescriptor;
use blurz::bluetooth_gatt_service::BluetoothGATTService;
use blurz::bus_types::{BusValue, InterfaceRecord, ObjectRecord, PropertyRecord,
    decode_byte_array_reply};

fn object(path: &str, iface: &str, props: Vec<(&str, BusValue)>) -> ObjectRecord {
    ObjectRecord {
        object_path: path.to_string(),
        interfaces: vec![InterfaceRecord {
            name: iface.to_string(),
            properties: props
                .into_iter()
                .map(|(n, v)| PropertyRecord { name: n.to_string(), value: v })
                .collect(),
        }],
    }
}

#[test]
fn service_properties_and_children() {
    let objects = vec![
        object(
            "/a0/d1/s0",
            "org.bluez.GattService1",
            vec![
                ("UUID", BusValue::Str("0000180f-0000-1000-8000-00805f9b34fb".to_string())),
                ("Primary", BusValue::Bool(true)),
                ("Device", BusValue::ObjectPath("/a0/d1".to_string())),
            ],
        ),
        object(
            "/a0/d1/s0/c0",
            "org.bluez.GattCharacteristic1",
            vec![("Service", BusValue::ObjectPath("/a0/d1/s0".to_string()))],
        ),
        object(
            "/a0/d1/s1/c9",
            "org.bluez.GattCharacteristic1",
            vec![("Service", BusValue::ObjectPath("/a0/d1/s1".to_string()))],
        ),
    ];
    let service = BluetoothGATTService::new("/a0/d1/s0".to_string());
    assert_eq!(service.get_id(), "/a0/d1/s0");
    assert_eq!(
        service.get_uuid(&objects).unwrap(),
        "0000180f-0000-1000-8000-00805f9b34fb"
    );
    assert!(service.is_primary(&objects).unwrap());
    assert_eq!(service.get_device(&objects).unwrap(), "/a0/d1");
    assert_eq!(
        service.get_gatt_characteristics(&objects),
        vec!["/a0/d1/s0/c0".to_string()]
    );
    match service.get_includes() {
        Err(BlurzError::NotImplemented(name)) => assert_eq!(name, "get_includes"),
        other => panic!("expected NotImplemented, got {:?}", other),
    }
}

#[test]
fn characteristic_properties_and_children() {
    let objects = vec![
        object(
            "/a0/d1/s0/c0",
            "org.bluez.GattCharacteristic1",
            vec![
                ("UUID", BusValue::Str("00002a19-0000-1000-8000-00805f9b34fb".to_string())),
                ("Service", BusValue::ObjectPath("/a0/d1/s0".to_string())),
                ("Value", BusValue::Array(vec![BusValue::Byte(0x64)])),
                ("Notifying", BusValue::Bool(false)),
                (
                    "Flags",
                    BusValue::Array(vec![
                        BusValue::Str("read".to_string()),
                        BusValue::Str("notify".to_string()),
                    ]),
                ),
            ],
        ),
        object(
            "/a0/d1/s0/c0/d0",
            "org.bluez.GattDescriptor1",
            vec![("Characteristic", BusValue::ObjectPath("/a0/d1/s0/c0".to_string()))],
        ),
    ];
    let characteristic = BluetoothGATTCharacteristic::new("/a0/d1/s0/c0".to_string());
    assert_eq!(
        characteristic.get_uuid(&objects).unwrap(),
        "00002a19-0000-1000-8000-00805f9b34fb"
    );
    assert_eq!(characteristic.get_service(&objects).unwrap(), "/a0/d1/s0");
    assert_eq!(characteristic.get_value(&objects).unwrap(), vec![0x64]);
    assert!(!characteristic.is_notifying(&objects).unwrap());
    assert_eq!(
        characteristic.get_flags(&objects).unwrap(),
        vec!["read".to_string(), "notify".to_string()]
    );
    assert_eq!(
        characteristic.get_gatt_descriptors(&objects),
        vec!["/a0/d1/s0/c0/d0".to_string()]
    );
}

#[test]
fn scenario_read_value_with_offset() {
    let characteristic = BluetoothGATTCharacteristic::new("/a0/d1/s0/c0".to_string());
    let call = characteristic.read_value(Some(5));
    assert_eq!(call.service, "org.bluez");
    assert_eq!(call.object_path, "/a0/d1/s0/c0");
    assert_eq!(call.interface, "org.bluez.GattCharacteristic1");
    assert_eq!(call.member, "ReadValue");
    assert_eq!(call.timeout_ms, 1000);
    assert_eq!(
        call.args,
        vec![BusValue::Dict(vec![(
            BusValue::Str("offset".to_string()),
            BusValue::Variant(Box::new(BusValue::U16(5))),
        )])]
    );

    // the daemon replies with the read bytes
    let reply = vec![BusValue::Array(vec![BusValue::Byte(0xDE), BusValue::Byte(0xAD)])];
    assert_eq!(decode_byte_array_reply(&reply).unwrap(), vec![0xDE, 0xAD]);
}

#[test]
fn read_value_without_offset_sends_no_key() {
    let characteristic = BluetoothGATTCharacteristic::new("/a0/d1/s0/c0".to_string());
    let call = characteristic.read_value(None);
    assert_eq!(call.args, vec![BusValue::Dict(vec![])]);
}

#[test]
fn write_value_carries_bytes_then_options() {
    let characteristic = BluetoothGATTCharacteristic::new("/a0/d1/s0/c0".to_string());
    let call = characteristic.write_value(vec![1, 2, 3], Some(2));
    assert_eq!(call.member, "WriteValue");
    assert_eq!(call.timeout_ms, 10000);
    assert_eq!(call.args.len(), 2);
    assert_eq!(
        call.args[0],
        BusValue::Array(vec![BusValue::Byte(1), BusValue::Byte(2), BusValue::Byte(3)])
    );
    assert_eq!(
        call.args[1],
        BusValue::Dict(vec![(
            BusValue::Str("offset".to_string()),
            BusValue::Variant(Box::new(BusValue::U16(2))),
        )])
    );
}

#[test]
fn notify_and_acquire_requests() {
    let characteristic = BluetoothGATTCharacteristic::new("/a0/d1/s0/c0".to_string());
    assert_eq!(characteristic.start_notify().member, "StartNotify");
    assert_eq!(characteristic.stop_notify().member, "StopNotify");
    let acquire = characteristic.acquire_notify();
    assert_eq!(acquire.member, "AcquireNotify");
    assert_eq!(acquire.args, vec![BusValue::Dict(vec![])]);
    let acquire = characteristic.acquire_write();
    assert_eq!(acquire.member, "AcquireWrite");
    assert_eq!(acquire.args, vec![BusValue::Dict(vec![])]);
}

#[test]
fn descriptor_properties_and_requests() {
    let objects = vec![object(
        "/a0/d1/s0/c0/d0",
        "org.bluez.GattDescriptor1",
        vec![
            ("UUID", BusValue::Str("00002902-0000-1000-8000-00805f9b34fb".to_string())),
            ("Characteristic", BusValue::ObjectPath("/a0/d1/s0/c0".to_string())),
            ("Value", BusValue::Array(vec![BusValue::Byte(1), BusValue::Byte(0)])),
            ("Flags", BusValue::Array(vec![BusValue::Str("read".to_string())])),
        ],
    )];
    let descriptor = BluetoothGATTDescriptor::new("/a0/d1/s0/c0/d0".to_string());
    assert_eq!(
        descriptor.get_uuid(&objects).unwrap(),
        "00002902-0000-1000-8000-00805f9b34fb"
    );
    assert_eq!(descriptor.get_characteristic(&objects).unwrap(), "/a0/d1/s0/c0");
    assert_eq!(descriptor.get_value(&objects).unwrap(), vec![1, 0]);
    assert_eq!(descriptor.get_flags(&objects).unwrap(), vec!["read".to_string()]);

    let read = descriptor.read_value(Some(1));
    assert_eq!(read.interface, "org.bluez.GattDescriptor1");
    assert_eq!(read.member, "ReadValue");
    assert_eq!(read.timeout_ms, 1000);
    let write = descriptor.write_value(vec![9], None);
    assert_eq!(write.member, "WriteValue");
    assert_eq!(write.timeout_ms, 1000);
    assert_eq!(write.args[0], BusValue::Array(vec![BusValue::Byte(9)]));
    assert_eq!(write.args[1], BusValue::Dict(vec![]));
}

#[test]
fn malformed_reply_is_a_bus_error() {
    match decode_byte_array_reply(&vec![]) {
        Err(BlurzError::BusError(_)) => {}
        other => panic!("expected BusError, got {:?}", other),
    }
    match decode_byte_array_reply(&vec![BusValue::Str("nope".to_string())]) {
        Err(BlurzError::BusError(_)) => {}
        other => panic!("expected BusError, got {:?}", other),
    }
}
