use sleeplight::light_ring::{LightRing, INITIAL_BRIGHTNESS, NUM_LEDS};
use sleeplight::light_state::{LightState, Rgb8};

fn all(pixels: &[Rgb8], c: Rgb8) -> bool {
    pixels.iter().all(|p| *p == c)
}

#[test]
fn a_new_ring_is_dark() {
    let ring = LightRing::new();
    let pixels = ring.update();
    assert_eq!(pixels.len(), NUM_LEDS);
    assert!(all(&pixels, Rgb8 { r: 0, g: 0, b: 0 }));
    assert_eq!(INITIAL_BRIGHTNESS, 10);
}

#[test]
fn set_shows_the_gamma_corrected_dimmed_colour() {
    let mut ring = LightRing::new();
    // gamma(200) = 129, gamma(127) = 36, gamma(255) = 255; each scaled by 51/256.
    let pixels = ring.set(LightState::new(200, 127, 255, 50));
    assert_eq!(pixels.len(), 8);
    assert!(all(&pixels, Rgb8 { r: 25, g: 7, b: 50 }));
}

#[test]
fn set_uses_the_requested_brightness() {
    let mut ring = LightRing::new();
    let pixels = ring.set(LightState::new(255, 200, 127, 20));
    // 255 * 21 / 256 = 20, 129 * 21 / 256 = 10, 36 * 21 / 256 = 2.
    assert!(all(&pixels, Rgb8 { r: 20, g: 10, b: 2 }));
}

#[test]
fn brightness_above_fifty_is_driven_at_fifty() {
    let mut ring = LightRing::new();
    let pixels = ring.set(LightState::new(255, 255, 255, 255));
    assert!(all(&pixels, Rgb8 { r: 50, g: 50, b: 50 }));
}

#[test]
fn no_channel_ever_exceeds_fifty() {
    let mut ring = LightRing::new();
    for raw in [0u32, 0xFFFF_FFFF, 0x8080_8080, 0xFF00_FF32, 0x1234_5678, 0xFFFF_FF33] {
        let pixels = ring.set(LightState(raw));
        assert!(pixels.iter().all(|p| p.r <= 50 && p.g <= 50 && p.b <= 50));
    }
}

#[test]
fn off_turns_every_led_dark_and_set_turns_it_back_on() {
    let mut ring = LightRing::new();
    ring.set(LightState::new(255, 0, 0, 50));
    let dark = ring.off();
    assert_eq!(dark.len(), 8);
    assert!(all(&dark, Rgb8 { r: 0, g: 0, b: 0 }));
    assert!(all(&ring.update(), Rgb8 { r: 0, g: 0, b: 0 }));
    let lit = ring.set(LightState::new(255, 0, 0, 50));
    assert!(all(&lit, Rgb8 { r: 50, g: 0, b: 0 }));
}

#[test]
fn off_keeps_the_brightness_for_the_next_frame() {
    let mut ring = LightRing::new();
    ring.set(LightState::new(255, 255, 255, 20));
    ring.off();
    assert!(all(&ring.update(), Rgb8 { r: 0, g: 0, b: 0 }));
}

#[test]
fn black_colour_gives_a_dark_frame() {
    let mut ring = LightRing::new();
    let pixels = ring.set(LightState::new(0, 0, 0, 50));
    assert_eq!(pixels.len(), 8);
    assert!(all(&pixels, Rgb8 { r: 0, g: 0, b: 0 }));
}

#[test]
fn zero_brightness_gives_a_dark_frame() {
    let mut ring = LightRing::new();
    let pixels = ring.set(LightState::new(255, 255, 255, 0));
    assert!(all(&pixels, Rgb8 { r: 0, g: 0, b: 0 }));
}
