use vstd::prelude::*;

verus! {

/// Largest value of a colour channel; a channel `c` denotes the intensity
/// `c / 255`, so `255` denotes `1.0`.
pub const CHANNEL_MAX: u8 = 255;

/// An RGBA colour with each channel an integer in `0 ..= CHANNEL_MAX`.
/// A channel value `c` stands for the real intensity `c / CHANNEL_MAX`.
#[derive(Clone, Copy, Debug, PartialEq, Eq, Structural)]
pub struct Color {
    pub r: u8,
    pub g: u8,
    pub b: u8,
    pub a: u8,
}

impl Color {
    /// Whether every channel, alpha included, is at full intensity.
    pub open spec fn is_opaque_white(self) -> bool {
        self.r == CHANNEL_MAX && self.g == CHANNEL_MAX && self.b == CHANNEL_MAX
            && self.a == CHANNEL_MAX
    }

    /// The colour every frame is cleared to: opaque white.
    pub fn opaque_white() -> (c: Color)
        ensures
            c.is_opaque_white(),
    {
        Color { r: CHANNEL_MAX, g: CHANNEL_MAX, b: CHANNEL_MAX, a: CHANNEL_MAX }
    }
}

} // verus!
