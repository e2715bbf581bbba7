//! Colors as four 8-bit channels, packed to and from single 32-bit values
//! in RGBA byte order (red in the highest byte, alpha in the lowest).

use vstd::prelude::*;

verus! {

/// A color with four 8-bit channels.
#[derive(Clone, Copy, Debug, PartialEq, Eq, Structural)]
pub struct Color {
    pub r: u8,
    pub g: u8,
    pub b: u8,
    pub a: u8,
}

/// The color held in the 32-bit value `v`, RGBA byte order.
pub open spec fn color_from_u32_spec(v: u32) -> Color {
    Color {
        r: ((v >> 24) & 0xff) as u8,
        g: ((v >> 16) & 0xff) as u8,
        b: ((v >> 8) & 0xff) as u8,
        a: (v & 0xff) as u8,
    }
}

/// The 32-bit value packing the color `c`, RGBA byte order.
pub open spec fn color_to_u32_spec(c: Color) -> u32 {
    ((c.r as u32) << 24) | ((c.g as u32) << 16) | ((c.b as u32) << 8) | (c.a as u32)
}

impl Color {
    /// Unpack a color from its 32-bit RGBA representation.
    pub fn from_u32(v: u32) -> (c: Color)
        ensures
            c == color_from_u32_spec(v),
    {
        Color {
            r: ((v >> 24) & 0xff) as u8,
            g: ((v >> 16) & 0xff) as u8,
            b: ((v >> 8) & 0xff) as u8,
            a: (v & 0xff) as u8,
        }
    }

    /// Pack a color into its 32-bit RGBA representation.
    pub fn to_u32(&self) -> (v: u32)
        ensures
            v == color_to_u32_spec(*self),
    {
        ((self.r as u32) << 24) | ((self.g as u32) << 16) | ((self.b as u32) << 8)
            | (self.a as u32)
    }
}

/// Packing a color and unpacking the result restores the color exactly.
pub proof fn lemma_color_round_trip(c: Color)
    ensures
        color_from_u32_spec(color_to_u32_spec(c)) == c,
{
    let r = c.r;
    let g = c.g;
    let b = c.b;
    let a = c.a;
    assert(((((r as u32) << 24) | ((g as u32) << 16) | ((b as u32) << 8) | (a as u32))
        >> 24) & 0xff == r as u32) by (bit_vector);
    assert(((((r as u32) << 24) | ((g as u32) << 16) | ((b as u32) << 8) | (a as u32))
        >> 16) & 0xff == g as u32) by (bit_vector);
    assert(((((r as u32) << 24) | ((g as u32) << 16) | ((b as u32) << 8) | (a as u32))
        >> 8) & 0xff == b as u32) by (bit_vector);
    assert((((r as u32) << 24) | ((g as u32) << 16) | ((b as u32) << 8) | (a as u32))
        & 0xff == a as u32) by (bit_vector);
}

/// Unpacking a 32-bit value and packing the result restores the value exactly.
pub proof fn lemma_u32_round_trip(v: u32)
    ensures
        color_to_u32_spec(color_from_u32_spec(v)) == v,
{
    assert(((((v >> 24) & 0xff) as u8 as u32) << 24) | ((((v >> 16) & 0xff) as u8 as u32) << 16)
        | ((((v >> 8) & 0xff) as u8 as u32) << 8) | ((v & 0xff) as u8 as u32) == v)
        by (bit_vector);
}

} // verus!
