use sleeplight::ble::{
    advertisement_payloads, handle_conn_event, u128_to_le_bytes, ConnAction, ConnEvent,
    BLE_SELF_UUID, INITIAL_BATTERY_LEVEL, MAX_AD_LEN, NAME,
};
use sleeplight::light_ring::LightRing;
use sleeplight::light_state::Rgb8;

const BATTERY: [u8; 2] = [0x0f, 0x18];
const DEVICE_INFORMATION: [u8; 2] = [0x0a, 0x18];
const GATT: [u8; 2] = [0x01, 0x18];

#[test]
fn advertising_payload_holds_flags_battery_service_and_name() {
    let (adv, _) = advertisement_payloads(BATTERY, DEVICE_INFORMATION, GATT).unwrap();
    let mut expected = vec![2u8, 1, 0x06, 3, 3, 0x0f, 0x18, 11, 9];
    expected.extend_from_slice(b"SleepLight");
    assert_eq!(adv, expected);
    assert!(adv.len() <= MAX_AD_LEN);
}

#[test]
fn scan_response_holds_other_services_and_light_uuid() {
    let (_, scan) = advertisement_payloads(BATTERY, DEVICE_INFORMATION, GATT).unwrap();
    let mut expected = vec![5u8, 3, 0x0a, 0x18, 0x01, 0x18, 17, 7];
    expected.extend_from_slice(&BLE_SELF_UUID.to_le_bytes());
    assert_eq!(scan, expected);
    assert_eq!(scan.len(), 24);
}

#[test]
fn uuid_bytes_are_little_endian() {
    assert_eq!(u128_to_le_bytes(BLE_SELF_UUID), BLE_SELF_UUID.to_le_bytes());
    assert_eq!(u128_to_le_bytes(1), [1, 0, 0, 0, 0, 0, 0, 0, 0, 0, 0, 0, 0, 0, 0, 0]);
    let uuid = u128_to_le_bytes(BLE_SELF_UUID);
    assert_eq!(uuid[0], 0x00);
    assert_eq!(uuid[15], 0xf3);
}

#[test]
fn constants() {
    assert_eq!(NAME, "SleepLight");
    assert_eq!(INITIAL_BATTERY_LEVEL, 70);
}

#[test]
fn writing_the_state_characteristic_shows_the_colour() {
    let mut ring = LightRing::new();
    let event = ConnEvent::Write { handle: 12, data: vec![255, 0, 255, 50] };
    match handle_conn_event(&mut ring, 12, &event) {
        ConnAction::ShowAndReply { state, frame } => {
            assert_eq!((state.r(), state.g(), state.b(), state.brightness()), (255, 0, 255, 50));
            assert_eq!(frame.len(), 8);
            assert!(frame.iter().all(|p| *p == Rgb8 { r: 50, g: 0, b: 50 }));
        }
        _ => panic!("expected a frame"),
    }
    assert!(ring.update().iter().all(|p| *p == Rgb8 { r: 50, g: 0, b: 50 }));
}

#[test]
fn writing_another_attribute_only_replies() {
    let mut ring = LightRing::new();
    let event = ConnEvent::Write { handle: 3, data: vec![1, 2] };
    assert!(matches!(handle_conn_event(&mut ring, 12, &event), ConnAction::Reply));
    assert!(ring.update().iter().all(|p| *p == Rgb8 { r: 0, g: 0, b: 0 }));
}

#[test]
fn other_events() {
    let mut ring = LightRing::new();
    assert!(matches!(handle_conn_event(&mut ring, 12, &ConnEvent::Request), ConnAction::Reply));
    assert!(matches!(handle_conn_event(&mut ring, 12, &ConnEvent::LinkUpdate), ConnAction::Ignore));
    assert!(matches!(handle_conn_event(&mut ring, 12, &ConnEvent::Disconnected), ConnAction::Close));
}
