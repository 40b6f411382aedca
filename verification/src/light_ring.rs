//! The state of the LED ring and the pixel frame it is driven with.
use crate::light_state::{lemma_level_is_min, LightState, Rgb8, MAX_BRIGHTNESS};
use smart_leds::RGB8;
use vstd::math::min;
use vstd::prelude::*;

verus! {

/// Number of LEDs on the ring.
pub const NUM_LEDS: usize = 8;

/// Brightness the ring starts with, before any state has been set.
pub const INITIAL_BRIGHTNESS: u8 = 10;

/// The value that `smart_leds::gamma` maps one colour channel to: entry `channel` of
/// its gamma table.
pub open spec fn gamma8(channel: u8) -> u8 {
    match channel {
        0 => 0, 1 => 0, 2 => 0, 3 => 0, 4 => 0, 5 => 0, 6 => 0, 7 => 0,
        8 => 0, 9 => 0, 10 => 0, 11 => 0, 12 => 0, 13 => 0, 14 => 0, 15 => 0,
        16 => 0, 17 => 0, 18 => 0, 19 => 0, 20 => 0, 21 => 0, 22 => 0, 23 => 0,
        24 => 0, 25 => 0, 26 => 0, 27 => 0, 28 => 1, 29 => 1, 30 => 1, 31 => 1,
        32 => 1, 33 => 1, 34 => 1, 35 => 1, 36 => 1, 37 => 1, 38 => 1, 39 => 1,
        40 => 1, 41 => 2, 42 => 2, 43 => 2, 44 => 2, 45 => 2, 46 => 2, 47 => 2,
        48 => 2, 49 => 3, 50 => 3, 51 => 3, 52 => 3, 53 => 3, 54 => 3, 55 => 3,
        56 => 4, 57 => 4, 58 => 4, 59 => 4, 60 => 4, 61 => 5, 62 => 5, 63 => 5,
        64 => 5, 65 => 6, 66 => 6, 67 => 6, 68 => 6, 69 => 7, 70 => 7, 71 => 7,
        72 => 7, 73 => 8, 74 => 8, 75 => 8, 76 => 9, 77 => 9, 78 => 9, 79 => 10,
        80 => 10, 81 => 10, 82 => 11, 83 => 11, 84 => 11, 85 => 12, 86 => 12, 87 => 13,
        88 => 13, 89 => 13, 90 => 14, 91 => 14, 92 => 15, 93 => 15, 94 => 16, 95 => 16,
        96 => 17, 97 => 17, 98 => 18, 99 => 18, 100 => 19, 101 => 19, 102 => 20, 103 => 20,
        104 => 21, 105 => 21, 106 => 22, 107 => 22, 108 => 23, 109 => 24, 110 => 24, 111 => 25,
        112 => 25, 113 => 26, 114 => 27, 115 => 27, 116 => 28, 117 => 29, 118 => 29, 119 => 30,
        120 => 31, 121 => 32, 122 => 32, 123 => 33, 124 => 34, 125 => 35, 126 => 35, 127 => 36,
        128 => 37, 129 => 38, 130 => 39, 131 => 39, 132 => 40, 133 => 41, 134 => 42, 135 => 43,
        136 => 44, 137 => 45, 138 => 46, 139 => 47, 140 => 48, 141 => 49, 142 => 50, 143 => 50,
        144 => 51, 145 => 52, 146 => 54, 147 => 55, 148 => 56, 149 => 57, 150 => 58, 151 => 59,
        152 => 60, 153 => 61, 154 => 62, 155 => 63, 156 => 64, 157 => 66, 158 => 67, 159 => 68,
        160 => 69, 161 => 70, 162 => 72, 163 => 73, 164 => 74, 165 => 75, 166 => 77, 167 => 78,
        168 => 79, 169 => 81, 170 => 82, 171 => 83, 172 => 85, 173 => 86, 174 => 87, 175 => 89,
        176 => 90, 177 => 92, 178 => 93, 179 => 95, 180 => 96, 181 => 98, 182 => 99, 183 => 101,
        184 => 102, 185 => 104, 186 => 105, 187 => 107, 188 => 109, 189 => 110, 190 => 112, 191 => 114,
        192 => 115, 193 => 117, 194 => 119, 195 => 120, 196 => 122, 197 => 124, 198 => 126, 199 => 127,
        200 => 129, 201 => 131, 202 => 133, 203 => 135, 204 => 137, 205 => 138, 206 => 140, 207 => 142,
        208 => 144, 209 => 146, 210 => 148, 211 => 150, 212 => 152, 213 => 154, 214 => 156, 215 => 158,
        216 => 160, 217 => 162, 218 => 164, 219 => 167, 220 => 169, 221 => 171, 222 => 173, 223 => 175,
        224 => 177, 225 => 180, 226 => 182, 227 => 184, 228 => 186, 229 => 189, 230 => 191, 231 => 193,
        232 => 196, 233 => 198, 234 => 200, 235 => 203, 236 => 205, 237 => 208, 238 => 210, 239 => 213,
        240 => 215, 241 => 218, 242 => 220, 243 => 223, 244 => 225, 245 => 228, 246 => 231, 247 => 233,
        248 => 236, 249 => 239, 250 => 241, 251 => 244, 252 => 247, 253 => 249, 254 => 252, 255 => 255,
    }
}

/// The all-dark colour.
pub open spec fn black() -> Rgb8 {
    Rgb8 { r: 0, g: 0, b: 0 }
}

/// A colour with each channel gamma-corrected.
pub open spec fn gamma_pixel(c: Rgb8) -> Rgb8 {
    Rgb8 { r: gamma8(c.r), g: gamma8(c.g), b: gamma8(c.b) }
}

/// One channel scaled by a brightness: `c * (level + 1) / 256`.
pub open spec fn dim_channel(c: u8, level: u8) -> u8 {
    (c * (level + 1) / 256) as u8
}

/// A colour with each channel scaled by a brightness.
pub open spec fn dim_pixel(c: Rgb8, level: u8) -> Rgb8 {
    Rgb8 { r: dim_channel(c.r, level), g: dim_channel(c.g, level), b: dim_channel(c.b, level) }
}

/// The colour shown for an optional colour: black when there is none.
pub open spec fn shown_color(color: Option<Rgb8>) -> Rgb8 {
    match color {
        Some(c) => c,
        None => black(),
    }
}

/// The frame written to the ring: every LED shows the colour, gamma-corrected and
/// then scaled by the brightness.
pub open spec fn frame_of(color: Option<Rgb8>, level: u8) -> Seq<Rgb8> {
    Seq::new(NUM_LEDS as nat, |i: int| dim_pixel(gamma_pixel(shown_color(color)), level))
}

/// Every channel of a pixel is at most `bound`.
pub open spec fn pixel_at_most(c: Rgb8, bound: u8) -> bool {
    c.r <= bound && c.g <= bound && c.b <= bound
}

/// Runs `smart_leds::gamma` over the pixels. Each output channel is the gamma table's
/// entry for the input channel.
#[verifier::external_body]
fn gamma_correct(pixels: &Vec<Rgb8>) -> (out: Vec<Rgb8>)
    ensures
        out@.len() == pixels@.len(),
        forall|i: int|
            0 <= i < pixels@.len() ==> out@[i] == (Rgb8 {
                r: gamma8(#[trigger] pixels@[i].r),
                g: gamma8(pixels@[i].g),
                b: gamma8(pixels@[i].b),
            }),
{
    smart_leds::gamma(pixels.iter().map(|p| RGB8 { r: p.r, g: p.g, b: p.b })).map(
        |c| Rgb8 { r: c.r, g: c.g, b: c.b },
    ).collect()
}

/// Runs `smart_leds::brightness` over the pixels: each channel `c` becomes
/// `c * (level + 1) / 256`, computed in `u16`.
#[verifier::external_body]
fn scale_brightness(pixels: &Vec<Rgb8>, level: u8) -> (out: Vec<Rgb8>)
    ensures
        out@.len() == pixels@.len(),
        forall|i: int|
            0 <= i < pixels@.len() ==> out@[i] == dim_pixel(#[trigger] pixels@[i], level),
{
    smart_leds::brightness(pixels.iter().map(|p| RGB8 { r: p.r, g: p.g, b: p.b }), level).map(
        |c| Rgb8 { r: c.r, g: c.g, b: c.b },
    ).collect()
}

/// A channel scaled by a brightness of at most `MAX_BRIGHTNESS` is itself at most
/// `MAX_BRIGHTNESS`, whatever the channel.
pub proof fn lemma_dim_channel_capped(c: u8, level: u8)
    requires
        level <= MAX_BRIGHTNESS,
    ensures
        dim_channel(c, level) <= MAX_BRIGHTNESS,
{
    assert(c * (level + 1) <= 255 * 51) by (nonlinear_arith)
        requires
            c <= 255,
            level <= 50,
    ;
}

/// Every frame has one pixel per LED, all showing the same colour, and when the
/// brightness is at most `MAX_BRIGHTNESS` no channel of any pixel exceeds it.
pub proof fn lemma_frame_uniform_and_capped(color: Option<Rgb8>, level: u8)
    ensures
        frame_of(color, level).len() == NUM_LEDS,
        forall|i: int, j: int|
            0 <= i < NUM_LEDS && 0 <= j < NUM_LEDS ==> #[trigger] frame_of(color, level)[i]
                == #[trigger] frame_of(color, level)[j],
        level <= MAX_BRIGHTNESS ==> forall|i: int|
            0 <= i < NUM_LEDS ==> pixel_at_most(#[trigger] frame_of(color, level)[i], MAX_BRIGHTNESS),
{
    if level <= MAX_BRIGHTNESS {
        let g = gamma_pixel(shown_color(color));
        lemma_dim_channel_capped(g.r, level);
        lemma_dim_channel_capped(g.g, level);
        lemma_dim_channel_capped(g.b, level);
    }
}

/// Each LED of a ring's frame shows the ring's colour (black when it has none), put
/// through the gamma table and then scaled by `(level + 1) / 256` at the ring's own
/// level.
pub proof fn lemma_ring_frame_pixels(ring: LightRing, i: int)
    requires
        0 <= i < NUM_LEDS,
    ensures
        ring.frame().len() == NUM_LEDS,
        ({
            let c = match ring.shown() {
                Some(c) => c,
                None => (Rgb8 { r: 0, g: 0, b: 0 }),
            };
            ring.frame()[i] == (Rgb8 {
                r: (gamma8(c.r) * (ring.level() + 1) / 256) as u8,
                g: (gamma8(c.g) * (ring.level() + 1) / 256) as u8,
                b: (gamma8(c.b) * (ring.level() + 1) / 256) as u8,
            })
        }),
{
}

/// At brightness 0 every channel is scaled to 0.
pub proof fn lemma_dim_channel_zero_level(c: u8)
    ensures
        dim_channel(c, 0) == 0,
{
    assert(c * (0u8 + 1) / 256 == 0);
}

/// Commands sent to the light task.
pub enum LightCommand {
    SetState(LightState),
}

/// The LED ring: the brightness it is driven at and the colour it shows, if any.
pub struct LightRing {
    brightness: u8,
    color: Option<Rgb8>,
}

impl LightRing {
    #[verifier::type_invariant]
    spec fn brightness_capped(self) -> bool {
        self.brightness <= MAX_BRIGHTNESS
    }

    /// The brightness the ring is driven at.
    pub closed spec fn level(self) -> u8 {
        self.brightness
    }

    /// The colour the ring shows, or `None` when it is off.
    pub closed spec fn shown(self) -> Option<Rgb8> {
        self.color
    }

    /// The frame the ring is driven with in its current state.
    pub open spec fn frame(self) -> Seq<Rgb8> {
        frame_of(self.shown(), self.level())
    }

    /// A ring that is off, at the initial brightness.
    pub fn new() -> (ring: Self)
        ensures
            ring.level() == INITIAL_BRIGHTNESS,
            ring.shown() is None,
    {
        LightRing { brightness: INITIAL_BRIGHTNESS, color: None }
    }

    /// Shows the colour of `state` at its (capped) brightness; returns the frame to write.
    pub fn set(&mut self, state: LightState) -> (pixels: Vec<Rgb8>)
        ensures
            final(self).shown() == Some(state.color()),
            final(self).level() == state.level(),
            pixels@ == final(self).frame(),
            forall|i: int| 0 <= i < pixels@.len() ==> pixel_at_most(#[trigger] pixels@[i], MAX_BRIGHTNESS),
            state.color() == black() || state.level() == 0 ==> forall|i: int|
                0 <= i < pixels@.len() ==> #[trigger] pixels@[i] == black(),
            pixels@.len() == NUM_LEDS,
            forall|i: int|
                0 <= i < NUM_LEDS ==> #[trigger] pixels@[i] == (Rgb8 {
                    r: (gamma8((state.0 / 0x100_0000) as u8) * (min((state.0 % 0x100) as int, 50)
                        + 1) / 256) as u8,
                    g: (gamma8(((state.0 / 0x1_0000) % 0x100) as u8) * (min(
                        (state.0 % 0x100) as int,
                        50,
                    ) + 1) / 256) as u8,
                    b: (gamma8(((state.0 / 0x100) % 0x100) as u8) * (min((state.0 % 0x100) as int, 50)
                        + 1) / 256) as u8,
                }),
    {
        proof {
            use_type_invariant(&*self);
        }
        self.color = Some(state.to_rgb8());
        self.brightness = state.brightness();
        let pixels = self.update();
        proof {
            lemma_level_is_min(state.0);
            assert forall|i: int| 0 <= i < NUM_LEDS implies #[trigger] pixels@[i] == (Rgb8 {
                r: (gamma8((state.0 / 0x100_0000) as u8) * (min((state.0 % 0x100) as int, 50) + 1)
                    / 256) as u8,
                g: (gamma8(((state.0 / 0x1_0000) % 0x100) as u8) * (min((state.0 % 0x100) as int, 50)
                    + 1) / 256) as u8,
                b: (gamma8(((state.0 / 0x100) % 0x100) as u8) * (min((state.0 % 0x100) as int, 50)
                    + 1) / 256) as u8,
            }) by {
                lemma_ring_frame_pixels(*self, i);
            }
        }
        pixels
    }

    /// Turns the colour off, keeping the brightness; returns the frame to write, which
    /// is all dark.
    pub fn off(&mut self) -> (pixels: Vec<Rgb8>)
        ensures
            final(self).shown() is None,
            final(self).level() == old(self).level(),
            pixels@ == final(self).frame(),
            forall|i: int| 0 <= i < pixels@.len() ==> #[trigger] pixels@[i] == black(),
    {
        proof {
            use_type_invariant(&*self);
        }
        self.color = None;
        self.update()
    }

    /// The frame for the current state: `NUM_LEDS` copies of the colour (black when
    /// there is none), gamma-corrected, then scaled by the brightness. No channel
    /// exceeds `MAX_BRIGHTNESS`.
    pub fn update(&self) -> (pixels: Vec<Rgb8>)
        ensures
            pixels@ == self.frame(),
            pixels@.len() == NUM_LEDS,
            forall|i: int| 0 <= i < pixels@.len() ==> pixel_at_most(#[trigger] pixels@[i], MAX_BRIGHTNESS),
            shown_color(self.shown()) == black() || self.level() == 0 ==> forall|i: int|
                0 <= i < pixels@.len() ==> #[trigger] pixels@[i] == black(),
    {
        proof {
            use_type_invariant(self);
        }
        let color = match self.color {
            Some(c) => c,
            None => Rgb8 { r: 0, g: 0, b: 0 },
        };
        let mut leds: Vec<Rgb8> = Vec::new();
        let mut k: usize = 0;
        while k < NUM_LEDS
            invariant
                k <= NUM_LEDS,
                leds@.len() == k,
                forall|i: int| 0 <= i < k ==> leds@[i] == color,
            decreases NUM_LEDS - k,
        {
            leds.push(color);
            k = k + 1;
        }
        let corrected = gamma_correct(&leds);
        let pixels = scale_brightness(&corrected, self.brightness);
        proof {
            let g = gamma_pixel(color);
            let level = self.brightness;
            lemma_dim_channel_capped(g.r, level);
            lemma_dim_channel_capped(g.g, level);
            lemma_dim_channel_capped(g.b, level);
            assert forall|i: int| 0 <= i < NUM_LEDS implies pixels@[i] == self.frame()[i] by {
                assert(leds@[i] == color);
                assert(corrected@[i] == g);
            }
            assert(pixels@ =~= self.frame());
            if color == black() {
                assert(gamma8(0) == 0);
                assert(g == black());
                assert(dim_channel(0, level) == 0);
            }
            if level == 0 {
                lemma_dim_channel_zero_level(g.r);
                lemma_dim_channel_zero_level(g.g);
                lemma_dim_channel_zero_level(g.b);
            }
            if color == black() || level == 0 {
                assert(dim_pixel(g, level) == black());
                assert forall|i: int| 0 <= i < NUM_LEDS implies pixels@[i] == black() by {
                    assert(pixels@[i] == self.frame()[i]);
                }
            }
        }
        pixels
    }
}

} // verus!
