use ble_time_sync::gatt::{
    find_time_characteristic, CharacteristicDescriptor, NOTIFY_CHARACTERISTIC_UUID,
    PROPERTY_AUTHENTICATED_SIGNED_WRITES, PROPERTY_BROADCAST, PROPERTY_EXTENDED_PROPERTIES,
    PROPERTY_INDICATE, PROPERTY_NOTIFY, PROPERTY_READ, PROPERTY_WRITE,
    PROPERTY_WRITE_WITHOUT_RESPONSE, TIME_CHARACTERISTIC_UUID,
};
use uuid::Uuid;

fn characteristic(uuid: u128, properties: u8) -> CharacteristicDescriptor {
    CharacteristicDescriptor { uuid, properties }
}

#[test]
fn time_uuid_is_the_current_time_characteristic() {
    assert_eq!(
        Uuid::from_u128(TIME_CHARACTERISTIC_UUID).to_string(),
        "00002a2b-0000-1000-8000-00805f9b34fb"
    );
    assert_eq!(
        Uuid::parse_str("00002a2b-0000-1000-8000-00805f9b34fb").unwrap().as_u128(),
        TIME_CHARACTERISTIC_UUID
    );
}

#[test]
fn notify_uuid_reads_as_written() {
    assert_eq!(
        Uuid::from_u128(NOTIFY_CHARACTERISTIC_UUID).to_string(),
        "6e400002-b534-f393-67a9-e50e24dcca9e"
    );
}

#[test]
fn property_bits_are_distinct_and_fill_the_byte() {
    let bits = [
        PROPERTY_BROADCAST,
        PROPERTY_READ,
        PROPERTY_WRITE_WITHOUT_RESPONSE,
        PROPERTY_WRITE,
        PROPERTY_NOTIFY,
        PROPERTY_INDICATE,
        PROPERTY_AUTHENTICATED_SIGNED_WRITES,
        PROPERTY_EXTENDED_PROPERTIES,
    ];
    for (place, bit) in bits.iter().enumerate() {
        assert_eq!(*bit, 1u8 << place);
    }
}

#[test]
fn read_bit_makes_a_characteristic_readable() {
    assert!(characteristic(TIME_CHARACTERISTIC_UUID, PROPERTY_READ).is_readable());
    assert!(characteristic(TIME_CHARACTERISTIC_UUID, PROPERTY_READ | PROPERTY_WRITE).is_readable());
    assert!(characteristic(TIME_CHARACTERISTIC_UUID, 0xFF).is_readable());
    assert!(!characteristic(TIME_CHARACTERISTIC_UUID, PROPERTY_WRITE).is_readable());
    assert!(!characteristic(TIME_CHARACTERISTIC_UUID, 0).is_readable());
    assert!(!characteristic(TIME_CHARACTERISTIC_UUID, 0xFF & !PROPERTY_READ).is_readable());
}

#[test]
fn supports_asks_for_every_bit() {
    let c = characteristic(1, PROPERTY_READ | PROPERTY_NOTIFY);
    assert!(c.supports(PROPERTY_READ));
    assert!(c.supports(PROPERTY_NOTIFY));
    assert!(c.supports(PROPERTY_READ | PROPERTY_NOTIFY));
    assert!(c.supports(0));
    assert!(!c.supports(PROPERTY_WRITE));
    assert!(!c.supports(PROPERTY_READ | PROPERTY_WRITE));
}

#[test]
fn only_the_time_uuid_keeps_time() {
    assert!(characteristic(TIME_CHARACTERISTIC_UUID, 0).is_time_characteristic());
    assert!(!characteristic(NOTIFY_CHARACTERISTIC_UUID, 0xFF).is_time_characteristic());
    assert!(!characteristic(TIME_CHARACTERISTIC_UUID + 1, 0xFF).is_time_characteristic());
    assert!(!characteristic(0, 0xFF).is_time_characteristic());
}

#[test]
fn finds_time_characteristics_in_discovery_order() {
    let found = vec![
        characteristic(1, PROPERTY_READ),
        characteristic(TIME_CHARACTERISTIC_UUID, PROPERTY_WRITE),
        characteristic(NOTIFY_CHARACTERISTIC_UUID, PROPERTY_NOTIFY),
        characteristic(TIME_CHARACTERISTIC_UUID, PROPERTY_READ),
    ];
    assert_eq!(find_time_characteristic(&found, 0), Some(1));
    assert_eq!(find_time_characteristic(&found, 1), Some(1));
    assert_eq!(find_time_characteristic(&found, 2), Some(3));
    assert_eq!(find_time_characteristic(&found, 3), Some(3));
    assert_eq!(find_time_characteristic(&found, 4), None);
    assert_eq!(find_time_characteristic(&found, 9), None);
}

#[test]
fn finds_no_time_characteristic_where_there_is_none() {
    let found = vec![characteristic(1, PROPERTY_READ), characteristic(2, PROPERTY_WRITE)];
    assert_eq!(find_time_characteristic(&found, 0), None);
    assert_eq!(find_time_characteristic(&Vec::new(), 0), None);
}
