//! The packed light state: red, green, blue and brightness in one `u32`.
use vstd::math::min;
use vstd::prelude::*;

verus! {

/// Highest brightness the ring is ever driven at (current limiting).
pub const MAX_BRIGHTNESS: u8 = 50;

/// The red channel of a packed value: its most significant byte.
pub open spec fn red_of(raw: u32) -> u8 {
    (raw / 0x100_0000) as u8
}

/// The green channel of a packed value: its second byte from the top.
pub open spec fn green_of(raw: u32) -> u8 {
    ((raw / 0x1_0000) % 0x100) as u8
}

/// The blue channel of a packed value: its third byte from the top.
pub open spec fn blue_of(raw: u32) -> u8 {
    ((raw / 0x100) % 0x100) as u8
}

/// The requested brightness of a packed value: its least significant byte.
pub open spec fn level_of(raw: u32) -> u8 {
    (raw % 0x100) as u8
}

/// Packs four bytes, most significant first: `[red][green][blue][brightness]`.
pub open spec fn packed(r: u8, g: u8, b: u8, level: u8) -> u32 {
    (r * 0x100_0000 + g * 0x1_0000 + b * 0x100 + level) as u32
}

/// A requested brightness limited to `MAX_BRIGHTNESS`.
pub open spec fn capped(level: u8) -> u8 {
    if level <= MAX_BRIGHTNESS {
        level
    } else {
        MAX_BRIGHTNESS
    }
}

/// The four bytes of `v` in little-endian order (least significant first).
pub open spec fn le_bytes(v: u32) -> Seq<u8> {
    seq![level_of(v), blue_of(v), green_of(v), red_of(v)]
}

/// The value of four bytes read in little-endian order.
pub open spec fn le_value(s: Seq<u8>) -> u32
    recommends
        s.len() == 4,
{
    packed(s[3], s[2], s[1], s[0])
}

/// The value of four bytes read in big-endian order.
pub open spec fn be_value(s: Seq<u8>) -> u32
    recommends
        s.len() == 4,
{
    packed(s[0], s[1], s[2], s[3])
}

/// An 8-bit-per-channel colour.
#[derive(Clone, Copy, PartialEq, Eq, Structural, Debug)]
pub struct Rgb8 {
    pub r: u8,
    pub g: u8,
    pub b: u8,
}

/// Red, green, blue and brightness packed into a single `u32`.
///
/// Bit layout (most significant to least significant):
/// `[red: 8][green: 8][blue: 8][brightness: 8]`
#[derive(Clone, Copy, PartialEq, Eq, Structural)]
pub struct LightState(pub u32);

impl LightState {
    /// The red channel.
    pub open spec fn red(self) -> u8 {
        red_of(self.0)
    }

    /// The green channel.
    pub open spec fn green(self) -> u8 {
        green_of(self.0)
    }

    /// The blue channel.
    pub open spec fn blue(self) -> u8 {
        blue_of(self.0)
    }

    /// The brightness the state asks for, capped at `MAX_BRIGHTNESS`.
    pub open spec fn level(self) -> u8 {
        capped(level_of(self.0))
    }

    /// The colour of the state.
    pub open spec fn color(self) -> Rgb8 {
        Rgb8 { r: self.red(), g: self.green(), b: self.blue() }
    }

    /// Packs the four bytes, red in the top byte and brightness in the bottom one.
    pub fn new(r: u8, g: u8, b: u8, brightness: u8) -> (s: Self)
        ensures
            s.0 == packed(r, g, b, brightness),
    {
        let raw: u32 = (r as u32) << 24u32 | (g as u32) << 16u32 | (b as u32) << 8u32
            | brightness as u32;
        assert(raw == packed(r, g, b, brightness)) by (bit_vector)
            requires
                raw == (r as u32) << 24u32 | (g as u32) << 16u32 | (b as u32) << 8u32
                    | brightness as u32,
        ;
        LightState(raw)
    }

    /// Constructs a `LightState` from a raw `u32` received over BLE.
    ///
    /// BLE/ATT transmits multi-byte integers in little-endian byte order, so the
    /// wire bytes are re-interpreted as big-endian to match the packed layout.
    pub fn from_ble_u32(le_value: u32) -> (s: Self)
        ensures
            s.0 == be_value(le_bytes(le_value)),
    {
        let bytes = to_le_bytes(le_value);
        LightState(from_be_bytes(bytes))
    }

    /// The red channel.
    pub fn r(self) -> (v: u8)
        ensures
            v == self.red(),
    {
        let raw = self.0;
        let v = (raw >> 24u32) as u8;
        assert(v == red_of(raw)) by (bit_vector)
            requires
                v == (raw >> 24u32) as u8,
        ;
        v
    }

    /// The green channel.
    pub fn g(self) -> (v: u8)
        ensures
            v == self.green(),
    {
        let raw = self.0;
        let v = (raw >> 16u32) as u8;
        assert(v == green_of(raw)) by (bit_vector)
            requires
                v == (raw >> 16u32) as u8,
        ;
        v
    }

    /// The blue channel.
    pub fn b(self) -> (v: u8)
        ensures
            v == self.blue(),
    {
        let raw = self.0;
        let v = (raw >> 8u32) as u8;
        assert(v == blue_of(raw)) by (bit_vector)
            requires
                v == (raw >> 8u32) as u8,
        ;
        v
    }

    /// The brightness, clamped to `0..=MAX_BRIGHTNESS`.
    pub fn brightness(self) -> (v: u8)
        ensures
            v == self.level(),
            v <= MAX_BRIGHTNESS,
            v == min((self.0 % 0x100) as int, 50),
    {
        let raw = self.0;
        let low = raw as u8;
        assert(low == level_of(raw)) by (bit_vector)
            requires
                low == raw as u8,
        ;
        if low > MAX_BRIGHTNESS {
            MAX_BRIGHTNESS
        } else {
            low
        }
    }

    /// The colour part of the state.
    pub fn to_rgb8(self) -> (c: Rgb8)
        ensures
            c == self.color(),
    {
        Rgb8 { r: self.r(), g: self.g(), b: self.b() }
    }
}

/// The bytes of `v`, least significant first.
fn to_le_bytes(v: u32) -> (bytes: [u8; 4])
    ensures
        bytes@ == le_bytes(v),
{
    let b0 = (v & 0xff) as u8;
    let b1 = ((v >> 8u32) & 0xff) as u8;
    let b2 = ((v >> 16u32) & 0xff) as u8;
    let b3 = (v >> 24u32) as u8;
    assert(b0 == level_of(v) && b1 == blue_of(v) && b2 == green_of(v) && b3 == red_of(v))
        by (bit_vector)
        requires
            b0 == (v & 0xff) as u8,
            b1 == ((v >> 8u32) & 0xff) as u8,
            b2 == ((v >> 16u32) & 0xff) as u8,
            b3 == (v >> 24u32) as u8,
    ;
    let bytes = [b0, b1, b2, b3];
    assert(bytes@ =~= le_bytes(v));
    bytes
}

/// The value of four bytes, most significant first.
fn from_be_bytes(bytes: [u8; 4]) -> (v: u32)
    ensures
        v == be_value(bytes@),
{
    let b0 = bytes[0];
    let b1 = bytes[1];
    let b2 = bytes[2];
    let b3 = bytes[3];
    let v: u32 = (b0 as u32) << 24u32 | (b1 as u32) << 16u32 | (b2 as u32) << 8u32 | b3 as u32;
    assert(v == packed(b0, b1, b2, b3)) by (bit_vector)
        requires
            v == (b0 as u32) << 24u32 | (b1 as u32) << 16u32 | (b2 as u32) << 8u32 | b3 as u32,
    ;
    v
}

/// Every channel read back from `new(r, g, b, level)` is the byte that was packed, and
/// the brightness read back is `level` capped at `MAX_BRIGHTNESS`.
pub proof fn lemma_new_then_read(r: u8, g: u8, b: u8, level: u8)
    ensures
        LightState(packed(r, g, b, level)).red() == r,
        LightState(packed(r, g, b, level)).green() == g,
        LightState(packed(r, g, b, level)).blue() == b,
        level_of(packed(r, g, b, level)) == level,
        LightState(packed(r, g, b, level)).level() == capped(level),
{
    let raw = packed(r, g, b, level);
    assert(red_of(raw) == r && green_of(raw) == g && blue_of(raw) == b && level_of(raw) == level)
        by (bit_vector)
        requires
            raw == packed(r, g, b, level),
    ;
}

/// Every packed value is the packing of its own four bytes, so `new` reaches every state.
pub proof fn lemma_read_then_new(raw: u32)
    ensures
        packed(red_of(raw), green_of(raw), blue_of(raw), level_of(raw)) == raw,
{
    assert(packed(red_of(raw), green_of(raw), blue_of(raw), level_of(raw)) == raw)
        by (bit_vector);
}

/// Reading four bytes little-endian and splitting the value again gives the same bytes.
pub proof fn lemma_le_bytes_of_le_value(bytes: Seq<u8>)
    requires
        bytes.len() == 4,
    ensures
        le_bytes(le_value(bytes)) == bytes,
{
    let (b0, b1, b2, b3) = (bytes[0], bytes[1], bytes[2], bytes[3]);
    let v = le_value(bytes);
    assert(level_of(v) == b0 && blue_of(v) == b1 && green_of(v) == b2 && red_of(v) == b3)
        by (bit_vector)
        requires
            v == packed(b3, b2, b1, b0),
    ;
    assert(le_bytes(v) =~= bytes);
}

/// The wire format of the light state characteristic: the four bytes
/// `[R, G, B, brightness]` carried as a little-endian `u32` decode, through
/// `LightState::from_ble_u32`, to a state whose channels are exactly those bytes
/// (the brightness capped at `MAX_BRIGHTNESS`).
pub proof fn lemma_ble_payload_decodes_to_channels(bytes: Seq<u8>)
    requires
        bytes.len() == 4,
    ensures
        ({
            let s = LightState(be_value(le_bytes(le_value(bytes))));
            &&& s.red() == bytes[0]
            &&& s.green() == bytes[1]
            &&& s.blue() == bytes[2]
            &&& level_of(s.0) == bytes[3]
            &&& s.level() == capped(bytes[3])
        }),
{
    lemma_le_bytes_of_le_value(bytes);
    lemma_new_then_read(bytes[0], bytes[1], bytes[2], bytes[3]);
}

/// Decoding a BLE value twice gives the value back: the conversion only reverses
/// the order of the four bytes.
pub proof fn lemma_from_ble_is_involution(v: u32)
    ensures
        be_value(le_bytes(be_value(le_bytes(v)))) == v,
{
    let w = be_value(le_bytes(v));
    lemma_new_then_read(level_of(v), blue_of(v), green_of(v), red_of(v));
    lemma_read_then_new(v);
    assert(be_value(le_bytes(w)) == packed(red_of(v), green_of(v), blue_of(v), level_of(v)));
}

/// The brightness read from a packed value is its low byte clamped to `0..=50`:
/// the byte itself when it is at most 50, and 50 otherwise.
pub proof fn lemma_level_is_min(raw: u32)
    ensures
        LightState(raw).level() == min((raw % 0x100) as int, 50),
        (raw % 0x100) <= 50 ==> LightState(raw).level() == raw % 0x100,
        (raw % 0x100) > 50 ==> LightState(raw).level() == 50,
{
}

/// A state built from `(r, g, b, l)` asks for brightness `min(l, 50)`.
pub proof fn lemma_new_brightness_is_min(r: u8, g: u8, b: u8, l: u8)
    ensures
        LightState(packed(r, g, b, l)).level() == min(l as int, 50),
{
    lemma_new_then_read(r, g, b, l);
    lemma_level_is_min(packed(r, g, b, l));
}

} // verus!
