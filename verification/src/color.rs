//! The emulated machine's colour model and its translation to the display's
//! native pixel encoding.
//!
//! A colour is a hue out of eight together with a two-level brightness. The
//! native encoding has five bits of red, six of green and five of blue. Each
//! hue switches a fixed subset of the three channels on; a channel that is on
//! carries the channel's maximum at `Bright` and half of it (truncated) at
//! `Normal`, and a channel that is off carries zero. Black has no channel on,
//! so both brightness levels collapse to the all-zero pixel.

use vstd::prelude::*;

verus! {

/// A hue of the emulated machine's palette.
#[derive(Clone, Copy, PartialEq, Eq, Structural, Debug)]
pub enum ZxColor {
    Black,
    Blue,
    Red,
    Purple,
    Green,
    Cyan,
    Yellow,
    White,
}

/// The two-level intensity modifier of the emulated machine's palette.
#[derive(Clone, Copy, PartialEq, Eq, Structural, Debug)]
pub enum ZxBrightness {
    Normal,
    Bright,
}

/// Largest value of the native encoding's red channel (five bits).
pub const MAX_R: u8 = 31;
/// Largest value of the native encoding's green channel (six bits).
pub const MAX_G: u8 = 63;
/// Largest value of the native encoding's blue channel (five bits).
pub const MAX_B: u8 = 31;

/// One pixel in the display's native encoding, held as its three channel
/// values: red and blue in `0..=31`, green in `0..=63`.
#[derive(Clone, Copy, PartialEq, Eq, Structural, Debug)]
pub struct Rgb {
    pub r: u8,
    pub g: u8,
    pub b: u8,
}

impl Rgb {
    /// The channel values lie within the native encoding's ranges.
    pub open spec fn wf(self) -> bool {
        self.r <= MAX_R && self.g <= MAX_G && self.b <= MAX_B
    }
}

/// Which of the three channels a hue switches on, as (red, green, blue).
pub open spec fn channels_on(c: ZxColor) -> (bool, bool, bool) {
    match c {
        ZxColor::Black => (false, false, false),
        ZxColor::Blue => (false, false, true),
        ZxColor::Red => (true, false, false),
        ZxColor::Purple => (true, false, true),
        ZxColor::Green => (false, true, false),
        ZxColor::Cyan => (false, true, true),
        ZxColor::Yellow => (true, true, false),
        ZxColor::White => (true, true, true),
    }
}

/// The value one channel carries: zero when off, the channel maximum when
/// bright, half the maximum (truncated) when normal.
pub open spec fn channel_value(on: bool, max: u8, brightness: ZxBrightness) -> u8 {
    if on {
        if brightness is Bright {
            max
        } else {
            (max / 2) as u8
        }
    } else {
        0
    }
}

/// The native pixel a (hue, brightness) pair translates to.
pub open spec fn rgb_of(c: ZxColor, brightness: ZxBrightness) -> Rgb {
    Rgb {
        r: channel_value(channels_on(c).0, MAX_R, brightness),
        g: channel_value(channels_on(c).1, MAX_G, brightness),
        b: channel_value(channels_on(c).2, MAX_B, brightness),
    }
}

/// Translates a (hue, brightness) pair to the display's native pixel
/// encoding. Total and pure: every input has exactly one output and there is
/// no failure case.
pub fn colour_conv(colour: &ZxColor, brightness: ZxBrightness) -> (r: Rgb)
    ensures
        r == rgb_of(*colour, brightness),
        r.wf(),
{
    match (colour, brightness) {
        (ZxColor::Black, _) => Rgb { r: 0, g: 0, b: 0 },
        (ZxColor::Blue, ZxBrightness::Bright) => Rgb { r: 0, g: 0, b: MAX_B },
        (ZxColor::Red, ZxBrightness::Bright) => Rgb { r: MAX_R, g: 0, b: 0 },
        (ZxColor::Purple, ZxBrightness::Bright) => Rgb { r: MAX_R, g: 0, b: MAX_B },
        (ZxColor::Green, ZxBrightness::Bright) => Rgb { r: 0, g: MAX_G, b: 0 },
        (ZxColor::Cyan, ZxBrightness::Bright) => Rgb { r: 0, g: MAX_G, b: MAX_B },
        (ZxColor::Yellow, ZxBrightness::Bright) => Rgb { r: MAX_R, g: MAX_G, b: 0 },
        (ZxColor::White, ZxBrightness::Bright) => Rgb { r: MAX_R, g: MAX_G, b: MAX_B },
        (ZxColor::Blue, ZxBrightness::Normal) => Rgb { r: 0, g: 0, b: MAX_B / 2 },
        (ZxColor::Red, ZxBrightness::Normal) => Rgb { r: MAX_R / 2, g: 0, b: 0 },
        (ZxColor::Purple, ZxBrightness::Normal) => Rgb { r: MAX_R / 2, g: 0, b: MAX_B / 2 },
        (ZxColor::Green, ZxBrightness::Normal) => Rgb { r: 0, g: MAX_G / 2, b: 0 },
        (ZxColor::Cyan, ZxBrightness::Normal) => Rgb { r: 0, g: MAX_G / 2, b: MAX_B / 2 },
        (ZxColor::Yellow, ZxBrightness::Normal) => Rgb { r: MAX_R / 2, g: MAX_G / 2, b: 0 },
        (ZxColor::White, ZxBrightness::Normal) => Rgb { r: MAX_R / 2, g: MAX_G / 2, b: MAX_B / 2 },
    }
}

/// Law: the translation is injective up to Black's collapsed brightness.
/// Two semantic inputs give the same native pixel only if they are the same
/// hue, and either the same brightness or the hue is Black (whose both
/// brightness levels are one semantic input).
pub proof fn lemma_translation_injective(
    c1: ZxColor,
    b1: ZxBrightness,
    c2: ZxColor,
    b2: ZxBrightness,
)
    ensures
        rgb_of(c1, b1) == rgb_of(c2, b2) ==> (c1 == c2 && (b1 == b2 || c1 == ZxColor::Black)),
{
}

/// Law: each channel of a hue's Normal pixel is exactly half of the same
/// channel of its Bright pixel, truncated.
pub proof fn lemma_normal_is_half_of_bright(c: ZxColor)
    ensures
        rgb_of(c, ZxBrightness::Normal).r == rgb_of(c, ZxBrightness::Bright).r / 2,
        rgb_of(c, ZxBrightness::Normal).g == rgb_of(c, ZxBrightness::Bright).g / 2,
        rgb_of(c, ZxBrightness::Normal).b == rgb_of(c, ZxBrightness::Bright).b / 2,
{
}

} // verus!
