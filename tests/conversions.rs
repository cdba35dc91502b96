use winrtble::buffer::{to_vec, NativeBuffer};
use winrtble::error::Error;
use winrtble::identifier::{to_guid, to_uuid, Guid, Uuid};
use winrtble::props::{
    to_char_props, CharPropFlags, GattCharacteristicProperties, ALL_FLAGS,
    AUTHENTICATED_SIGNED_WRITES, BROADCAST, EXTENDED_PROPERTIES, GATT_ALL,
    GATT_AUTHENTICATED_SIGNED_WRITES, GATT_BROADCAST, GATT_EXTENDED_PROPERTIES, GATT_INDICATE,
    GATT_NOTIFY, GATT_READ, GATT_RELIABLE_WRITES, GATT_WRITABLE_AUXILIARIES, GATT_WRITE,
    GATT_WRITE_WITHOUT_RESPONSE, INDICATE, NOTIFY, READ, WRITE, WRITE_WITHOUT_RESPONSE,
};
use winrtble::status::{to_error, GattCommunicationStatus};

fn props(bits: u32) -> CharPropFlags {
    to_char_props(&GattCharacteristicProperties { bits })
}

#[test]
fn status_success_is_ok() {
    assert_eq!(to_error(GattCommunicationStatus::Success), Ok(()));
}

#[test]
fn status_access_denied_is_permission_denied() {
    assert_eq!(
        to_error(GattCommunicationStatus::AccessDenied),
        Err(Error::PermissionDenied)
    );
}

#[test]
fn status_unreachable_is_not_connected() {
    assert_eq!(
        to_error(GattCommunicationStatus::Unreachable),
        Err(Error::NotConnected)
    );
}

#[test]
fn status_protocol_error_is_not_supported() {
    assert_eq!(
        to_error(GattCommunicationStatus::ProtocolError),
        Err(Error::NotSupported("ProtocolError".to_string()))
    );
}

#[test]
fn status_unknown_is_other() {
    for code in [4, 17, -1, i32::MAX, i32::MIN] {
        assert_eq!(
            to_error(GattCommunicationStatus::Unknown(code)),
            Err(Error::Other("Communication Error".to_string()))
        );
    }
}

#[test]
fn raw_codes_map_to_statuses() {
    assert_eq!(GattCommunicationStatus::from_raw(0), GattCommunicationStatus::Success);
    assert_eq!(GattCommunicationStatus::from_raw(1), GattCommunicationStatus::Unreachable);
    assert_eq!(GattCommunicationStatus::from_raw(2), GattCommunicationStatus::ProtocolError);
    assert_eq!(GattCommunicationStatus::from_raw(3), GattCommunicationStatus::AccessDenied);
    assert_eq!(GattCommunicationStatus::from_raw(4), GattCommunicationStatus::Unknown(4));
    assert_eq!(
        to_error(GattCommunicationStatus::from_raw(-7)),
        Err(Error::Other("Communication Error".to_string()))
    );
}

#[test]
fn identifier_fields_to_big_endian_bytes_and_back() {
    let g = Guid {
        data1: 0x12345678,
        data2: 0x9ABC,
        data3: 0xDEF0,
        data4: [0x11, 0x22, 0x33, 0x44, 0x55, 0x66, 0x77, 0x88],
    };
    let u = to_uuid(&g);
    assert_eq!(
        u.bytes,
        [
            0x12, 0x34, 0x56, 0x78, 0x9A, 0xBC, 0xDE, 0xF0, 0x11, 0x22, 0x33, 0x44, 0x55, 0x66,
            0x77, 0x88
        ]
    );
    assert_eq!(to_guid(&u), g);
}

#[test]
fn canonical_bytes_split_into_fields() {
    let u = Uuid {
        bytes: [
            0xa1, 0xa2, 0xa3, 0xa4, 0xb1, 0xb2, 0xc1, 0xc2, 0xd1, 0xd2, 0xd3, 0xd4, 0xd5, 0xd6,
            0xd7, 0xd8,
        ],
    };
    let g = to_guid(&u);
    assert_eq!(g.data1, 0xa1a2a3a4);
    assert_eq!(g.data2, 0xb1b2);
    assert_eq!(g.data3, 0xc1c2);
    assert_eq!(g.data4, [0xd1, 0xd2, 0xd3, 0xd4, 0xd5, 0xd6, 0xd7, 0xd8]);
    assert_eq!(to_uuid(&g), u);
}

#[test]
fn identifier_round_trips_on_edge_patterns() {
    for fill in [0x00u8, 0xff, 0x80, 0x01] {
        let u = Uuid { bytes: [fill; 16] };
        assert_eq!(to_uuid(&to_guid(&u)), u);
    }
    let g = Guid { data1: u32::MAX, data2: 0, data3: u16::MAX, data4: [0, 1, 2, 3, 4, 5, 6, 7] };
    assert_eq!(to_guid(&to_uuid(&g)), g);
}

#[test]
fn buffer_yields_declared_bytes() {
    let b = NativeBuffer { unconsumed_len: 4, available: vec![9, 8, 7, 6] };
    let data = to_vec(&b).unwrap();
    assert_eq!(data, vec![9, 8, 7, 6]);
    assert_eq!(data.len(), 4);
}

#[test]
fn buffer_stops_at_declared_length() {
    let b = NativeBuffer { unconsumed_len: 2, available: vec![1, 2, 3, 4] };
    assert_eq!(to_vec(&b), Ok(vec![1, 2]));
}

#[test]
fn empty_buffer_yields_nothing() {
    let b = NativeBuffer { unconsumed_len: 0, available: vec![] };
    assert_eq!(to_vec(&b), Ok(vec![]));
}

#[test]
fn short_buffer_fails() {
    let b = NativeBuffer { unconsumed_len: 5, available: vec![1, 2, 3] };
    assert_eq!(
        to_vec(&b),
        Err(Error::Other("Buffer holds fewer bytes than it reports".to_string()))
    );
    let empty = NativeBuffer { unconsumed_len: 1, available: vec![] };
    assert!(to_vec(&empty).is_err());
}

#[test]
fn each_property_maps_to_its_flag() {
    let pairs = [
        (GATT_BROADCAST, BROADCAST),
        (GATT_READ, READ),
        (GATT_WRITE_WITHOUT_RESPONSE, WRITE_WITHOUT_RESPONSE),
        (GATT_WRITE, WRITE),
        (GATT_NOTIFY, NOTIFY),
        (GATT_INDICATE, INDICATE),
        (GATT_AUTHENTICATED_SIGNED_WRITES, AUTHENTICATED_SIGNED_WRITES),
        (GATT_EXTENDED_PROPERTIES, EXTENDED_PROPERTIES),
    ];
    for (native, flag) in pairs {
        let flags = props(native);
        assert_eq!(flags.bits, flag);
        assert!(flags.contains(flag));
    }
}

#[test]
fn all_properties_give_all_flags() {
    assert_eq!(props(GATT_ALL).bits, ALL_FLAGS);
    assert_eq!(props(u32::MAX).bits, 0xff);
}

#[test]
fn properties_without_a_flag_give_none() {
    assert_eq!(props(0).bits, 0);
    assert_eq!(props(GATT_RELIABLE_WRITES | GATT_WRITABLE_AUXILIARIES).bits, 0);
}

#[test]
fn mixed_properties_give_matching_flags() {
    let flags = props(GATT_READ | GATT_NOTIFY | GATT_RELIABLE_WRITES);
    assert_eq!(flags.bits, READ | NOTIFY);
    assert!(flags.contains(READ));
    assert!(!flags.contains(WRITE));
}
