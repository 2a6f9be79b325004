use vstd::prelude::*;

verus! {

/// An RGB triple. Channel math elsewhere in the pipeline is done in wider
/// integers and clamped to [0, 255] before a value is stored here, so a
/// `Color` is always a displayable color.
#[derive(Clone, Copy, PartialEq, Eq, Structural, Debug)]
pub struct Color {
    pub r: u8,
    pub g: u8,
    pub b: u8,
}

/// The packed 24-bit form of an RGB triple: red in the high byte.
pub open spec fn packed_rgb(r: int, g: int, b: int) -> int {
    r * 0x10000 + g * 0x100 + b
}

impl Color {
    pub fn new(r: u8, g: u8, b: u8) -> (c: Color)
        ensures
            c.r == r && c.g == g && c.b == b,
    {
        Color { r, g, b }
    }

    /// Pack the triple into one 24-bit-in-32-bit word, red high.
    pub fn to_hex(&self) -> (v: u32)
        ensures
            v == packed_rgb(self.r as int, self.g as int, self.b as int),
            v < 0x1000000,
    {
        (self.r as u32) * 0x10000 + (self.g as u32) * 0x100 + (self.b as u32)
    }

    /// Unpack a 24-bit word into its three channels; bits above the low 24
    /// are ignored.
    pub fn from_hex(v: u32) -> (c: Color)
        ensures
            c.r == (v / 0x10000) % 0x100,
            c.g == (v / 0x100) % 0x100,
            c.b == v % 0x100,
    {
        Color {
            r: ((v / 0x10000) % 0x100) as u8,
            g: ((v / 0x100) % 0x100) as u8,
            b: (v % 0x100) as u8,
        }
    }
}

/// Packing then unpacking a color returns it unchanged.
pub proof fn lemma_color_pack_round_trip(c: Color)
    ensures
        ({
            let v = packed_rgb(c.r as int, c.g as int, c.b as int);
            &&& (v / 0x10000) % 0x100 == c.r
            &&& (v / 0x100) % 0x100 == c.g
            &&& v % 0x100 == c.b
        }),
{
    let v = packed_rgb(c.r as int, c.g as int, c.b as int);
    assert((v / 0x10000) % 0x100 == c.r && (v / 0x100) % 0x100 == c.g && v % 0x100 == c.b)
        by (nonlinear_arith)
        requires
            v == c.r * 0x10000 + c.g * 0x100 + c.b,
            0 <= c.r < 0x100,
            0 <= c.g < 0x100,
            0 <= c.b < 0x100,
    ;
}

} // verus!
