use sleeplight::light_state::{LightState, Rgb8, MAX_BRIGHTNESS};

#[test]
fn new_packs_red_green_blue_brightness_from_the_top() {
    let s = LightState::new(0x12, 0x34, 0x56, 0x78);
    assert_eq!(s.0, 0x1234_5678);
}

#[test]
fn channels_read_back_what_new_packed() {
    let s = LightState::new(10, 20, 30, 40);
    assert_eq!(s.r(), 10);
    assert_eq!(s.g(), 20);
    assert_eq!(s.b(), 30);
    assert_eq!(s.brightness(), 40);
}

#[test]
fn brightness_is_capped_at_fifty() {
    assert_eq!(LightState::new(0, 0, 0, 0).brightness(), 0);
    assert_eq!(LightState::new(0, 0, 0, 49).brightness(), 49);
    assert_eq!(LightState::new(0, 0, 0, 50).brightness(), 50);
    assert_eq!(LightState::new(0, 0, 0, 51).brightness(), 50);
    assert_eq!(LightState::new(0, 0, 0, 255).brightness(), 50);
    assert_eq!(MAX_BRIGHTNESS, 50);
}

#[test]
fn channels_of_raw_values() {
    let s = LightState(0xFFEE_DDCC);
    assert_eq!(s.r(), 0xFF);
    assert_eq!(s.g(), 0xEE);
    assert_eq!(s.b(), 0xDD);
    assert_eq!(s.brightness(), 50);
    let t = LightState(0x0000_0021);
    assert_eq!((t.r(), t.g(), t.b(), t.brightness()), (0, 0, 0, 0x21));
}

#[test]
fn from_ble_u32_reverses_the_bytes() {
    assert!(LightState::from_ble_u32(0x7856_3412) == LightState(0x1234_5678));
    assert!(LightState::from_ble_u32(0) == LightState(0));
    assert!(LightState::from_ble_u32(0xFF00_0000) == LightState(0x0000_00FF));
}

#[test]
fn ble_wire_bytes_decode_to_their_channels() {
    // The characteristic carries [R, G, B, brightness]; ATT delivers it as a little-endian u32.
    let wire = [200u8, 100, 50, 30];
    let s = LightState::from_ble_u32(u32::from_le_bytes(wire));
    assert_eq!(s.r(), 200);
    assert_eq!(s.g(), 100);
    assert_eq!(s.b(), 50);
    assert_eq!(s.brightness(), 30);
    let bright = LightState::from_ble_u32(u32::from_le_bytes([1, 2, 3, 99]));
    assert_eq!(bright.brightness(), 50);
}

#[test]
fn from_ble_u32_twice_gives_the_value_back() {
    for v in [0u32, 1, 0x1234_5678, 0xDEAD_BEEF, u32::MAX] {
        let once = LightState::from_ble_u32(v);
        assert!(LightState::from_ble_u32(once.0) == LightState(v));
    }
}

#[test]
fn to_rgb8_keeps_the_colour() {
    let s = LightState::new(7, 8, 9, 10);
    assert_eq!(s.to_rgb8(), Rgb8 { r: 7, g: 8, b: 9 });
}
