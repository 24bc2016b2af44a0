//! Colours of eight bits per channel.

use vstd::prelude::*;

verus! {

/// An opaque RGB colour with eight bits per channel.
#[derive(Debug, Clone, Copy, PartialEq, Eq, Structural)]
pub struct Color {
    pub r: u8,
    pub g: u8,
    pub b: u8,
}

/// The value of a channel held to what a byte can show.
pub open spec fn clamp_channel(value: int) -> int {
    if value < 0 {
        0
    } else if value > 255 {
        255
    } else {
        value
    }
}

impl Color {
    /// The packed `0x00RRGGBB` value of a colour, as a mathematical integer.
    pub open spec fn packed(self) -> int {
        self.r as int * 65536 + self.g as int * 256 + self.b as int
    }

    pub fn new(r: u8, g: u8, b: u8) -> (c: Color)
        ensures
            c == (Color { r, g, b }),
    {
        Color { r, g, b }
    }

    pub fn black() -> (c: Color)
        ensures
            c == (Color { r: 0, g: 0, b: 0 }),
    {
        Color { r: 0, g: 0, b: 0 }
    }

    pub fn white() -> (c: Color)
        ensures
            c == (Color { r: 255, g: 255, b: 255 }),
    {
        Color { r: 255, g: 255, b: 255 }
    }

    /// The colour whose channels are the given values, each held to the
    /// range from 0 to 255.
    pub fn clamped(r: i32, g: i32, b: i32) -> (c: Color)
        ensures
            c.r == clamp_channel(r as int),
            c.g == clamp_channel(g as int),
            c.b == clamp_channel(b as int),
    {
        Color { r: Self::clamp(r), g: Self::clamp(g), b: Self::clamp(b) }
    }

    fn clamp(value: i32) -> (channel: u8)
        ensures
            channel == clamp_channel(value as int),
    {
        if value < 0 {
            0
        } else if value > 255 {
            255
        } else {
            value as u8
        }
    }

    /// Packs the colour as `0x00RRGGBB`, the layout a window buffer expects.
    pub fn to_hex(&self) -> (hex: u32)
        ensures
            hex as int == self.packed(),
            hex <= 0x00FF_FFFF,
    {
        let r: u32 = self.r as u32;
        let g: u32 = self.g as u32;
        let b: u32 = self.b as u32;
        r * 65536 + g * 256 + b
    }
}

} // verus!
