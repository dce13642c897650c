use vstd::prelude::*;

verus! {

/// Saturation of every colour drawn, in percent: fully saturated.
pub const SATURATION_PERCENT: u64 = 100;

/// Lightness of every colour drawn, in percent: mid lightness.
pub const LIGHTNESS_PERCENT: u64 = 50;

/// Largest value of a colour channel.
pub const CHANNEL_MAX: u8 = 255;

/// Alpha of a fully opaque colour.
pub const OPAQUE: u8 = CHANNEL_MAX;

/// A colour with one byte per channel; a channel's intensity is its value
/// divided by `CHANNEL_MAX`.
#[derive(Clone, Copy, Debug, PartialEq, Eq, Structural)]
pub struct Color {
    pub r: u8,
    pub g: u8,
    pub b: u8,
    pub a: u8,
}

impl Color {
    /// The fully opaque colour with the given red, green and blue bytes.
    pub fn opaque(rgb: (u8, u8, u8)) -> (c: Color)
        ensures
            c.r == rgb.0,
            c.g == rgb.1,
            c.b == rgb.2,
            c.a == OPAQUE,
    {
        Color { r: rgb.0, g: rgb.1, b: rgb.2, a: OPAQUE }
    }
}

} // verus!
