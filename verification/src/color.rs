//! Saturating 8-bit RGB colors with packed `0xRRGGBB` hex conversions.

use vstd::prelude::*;

verus! {

/// An 8-bit RGB color. Channel arithmetic saturates to `[0, 255]`.
#[derive(Debug, Clone, Copy, PartialEq, Eq, Structural)]
pub struct Color {
    pub r: u8,
    pub g: u8,
    pub b: u8,
}

/// The packed `0xRRGGBB` value of a color.
pub open spec fn hex_of(c: Color) -> int {
    (c.r as int) * 0x10000 + (c.g as int) * 0x100 + (c.b as int)
}

/// The color whose channels are the low three bytes of `hex`, `0xRRGGBB`.
pub open spec fn color_of_hex(hex: u32) -> Color {
    Color { r: ((hex / 0x10000) % 0x100) as u8, g: ((hex / 0x100) % 0x100) as u8, b: (hex % 0x100) as u8 }
}

/// A channel sum clipped to 255.
pub open spec fn sat_add_channel(a: u8, b: u8) -> u8 {
    if a + b > 255 { 255u8 } else { (a + b) as u8 }
}

/// Channel-wise saturating sum of two colors.
pub open spec fn sat_add(a: Color, b: Color) -> Color {
    Color {
        r: sat_add_channel(a.r, b.r),
        g: sat_add_channel(a.g, b.g),
        b: sat_add_channel(a.b, b.b),
    }
}

impl Color {
    pub fn new(r: u8, g: u8, b: u8) -> (c: Color)
        ensures
            c == (Color { r, g, b }),
    {
        Color { r, g, b }
    }

    /// Unpacks the low three bytes of `hex` as `0xRRGGBB`.
    pub fn from_hex(hex: u32) -> (c: Color)
        ensures
            c == color_of_hex(hex),
    {
        let r = ((hex >> 16) & 0xFF) as u8;
        let g = ((hex >> 8) & 0xFF) as u8;
        let b = (hex & 0xFF) as u8;
        proof {
            assert(((hex >> 16) & 0xFF) as u8 == ((hex / 0x10000) % 0x100) as u8
                && ((hex >> 8) & 0xFF) as u8 == ((hex / 0x100) % 0x100) as u8
                && (hex & 0xFF) as u8 == (hex % 0x100) as u8) by (bit_vector);
        }
        Color { r, g, b }
    }

    pub fn black() -> (c: Color)
        ensures
            c == (Color { r: 0u8, g: 0u8, b: 0u8 }),
    {
        Color { r: 0, g: 0, b: 0 }
    }

    /// Packs the channels as `0xRRGGBB`.
    pub fn to_hex(&self) -> (hex: u32)
        ensures
            hex == hex_of(*self),
            hex <= 0xFFFFFF,
    {
        let hex = ((self.r as u32) << 16) | ((self.g as u32) << 8) | (self.b as u32);
        proof {
            let r = self.r;
            let g = self.g;
            let b = self.b;
            assert(((r as u32) << 16) | ((g as u32) << 8) | (b as u32)
                == (r as u32) * 0x10000 + (g as u32) * 0x100 + (b as u32)) by (bit_vector);
        }
        hex
    }

    pub fn is_black(&self) -> (black: bool)
        ensures
            black == (self.r == 0 && self.g == 0 && self.b == 0),
    {
        self.r == 0 && self.g == 0 && self.b == 0
    }

    /// Rescales each channel from `[0, 255]` to the unit range, truncating:
    /// a channel maps to 1 only at full intensity, otherwise to 0.
    pub fn to_f32(&self) -> (c: Color)
        ensures
            c == (Color { r: (self.r / 255) as u8, g: (self.g / 255) as u8, b: (self.b / 255) as u8 }),
    {
        Color { r: self.r / 255, g: self.g / 255, b: self.b / 255 }
    }

    /// Channel-wise saturating addition.
    pub fn add(self, other: Color) -> (sum: Color)
        ensures
            sum == sat_add(self, other),
    {
        Color {
            r: self.r.saturating_add(other.r),
            g: self.g.saturating_add(other.g),
            b: self.b.saturating_add(other.b),
        }
    }

    /// In-place channel-wise saturating addition.
    pub fn add_assign(&mut self, other: Color)
        ensures
            *final(self) == sat_add(*old(self), other),
    {
        self.r = self.r.saturating_add(other.r);
        self.g = self.g.saturating_add(other.g);
        self.b = self.b.saturating_add(other.b);
    }
}

/// Law: unpacking a packed color gives the color back, for every color.
pub proof fn lemma_hex_round_trip(c: Color)
    ensures
        color_of_hex(hex_of(c) as u32) == c,
{
    let r = c.r;
    let g = c.g;
    let b = c.b;
    let hex = hex_of(c);
    assert({
        let h = (r as u32) * 0x10000 + (g as u32) * 0x100 + (b as u32);
        ((h / 0x10000) % 0x100) as u8 == r && ((h / 0x100) % 0x100) as u8 == g && (h % 0x100) as u8 == b
    }) by (bit_vector);
}

} // verus!

