//! Color model: 8-bit-per-channel host colors and the device's
//! 6-bit-per-channel wire form, with conversions in both directions.

use vstd::prelude::*;

verus! {

/// Wire form of one 8-bit channel: the top six bits, shifted down.
pub open spec fn wire_of(c: u8) -> u8 {
    (c >> 2) & 0x3F
}

/// Expansion of a 6-bit wire value back to eight bits: the six bits are
/// shifted up and the top two are replicated into the low two positions.
pub open spec fn expand_of(v: u8) -> u8 {
    (v << 2) | (v >> 4)
}

/// The wire form of any channel fits in six bits.
pub proof fn lemma_wire_in_range(c: u8)
    ensures
        wire_of(c) < 64,
{
    assert(((c >> 2) & 0x3F) < 64) by (bit_vector);
}

/// Truncating to the wire form and expanding again is the identity on the
/// 6-bit wire domain. (Expanding and then truncating is not the identity on
/// the full 8-bit domain: truncation discards the low two bits for good.)
pub proof fn lemma_wire_round_trip(v: u8)
    requires
        v < 64,
    ensures
        wire_of(expand_of(v)) == v,
{
    assert(((((v << 2) | (v >> 4)) >> 2) & 0x3F) == v) by (bit_vector)
        requires
            v < 64,
    ;
}

/// Expanding after truncating is not the identity on the 8-bit domain: the
/// channel value 3 truncates to 0, which expands back to 0, not 3. (At the
/// maximum the round trip happens to restore the value: 255 truncates to 63,
/// which expands to 255 exactly.)
pub proof fn lemma_expand_truncate_loses_low_bits()
    ensures
        expand_of(wire_of(3)) != 3,
        expand_of(wire_of(255)) == 255,
{
    assert(((((3u8 >> 2) & 0x3F) << 2) | (((3u8 >> 2) & 0x3F) >> 4)) != 3) by (bit_vector);
    assert(((((255u8 >> 2) & 0x3F) << 2) | (((255u8 >> 2) & 0x3F) >> 4)) == 255) by (bit_vector);
}

/// A color as the host sees it: three independent 8-bit channel intensities.
#[derive(Debug, Clone, Copy, PartialEq, Eq, Structural)]
pub struct RGB {
    pub red: u8,
    pub green: u8,
    pub blue: u8,
}

impl RGB {
    pub fn new(red: u8, green: u8, blue: u8) -> (c: Self)
        ensures
            c == (RGB { red, green, blue }),
    {
        Self { red, green, blue }
    }

    /// The three channels in the device's wire form, in red, green, blue order.
    pub fn to_6bit_bytes(&self) -> (r: [u8; 3])
        ensures
            r@.len() == 3,
            r@[0] == wire_of(self.red),
            r@[1] == wire_of(self.green),
            r@[2] == wire_of(self.blue),
    {
        [
            (self.red >> 2) & 0x3F,
            (self.green >> 2) & 0x3F,
            (self.blue >> 2) & 0x3F,
        ]
    }

    /// A color rebuilt from three 6-bit wire values, each expanded to 8 bits.
    pub fn from_6bit_rgb(r: u8, g: u8, b: u8) -> (c: Self)
        ensures
            c.red == expand_of(r),
            c.green == expand_of(g),
            c.blue == expand_of(b),
    {
        Self {
            red: (r << 2) | (r >> 4),
            green: (g << 2) | (g >> 4),
            blue: (b << 2) | (b >> 4),
        }
    }
}

impl Default for RGB {
    /// Black: all channels zero.
    fn default() -> (c: Self)
        ensures
            c == (RGB { red: 0, green: 0, blue: 0 }),
    {
        RGB { red: 0, green: 0, blue: 0 }
    }
}

} // verus!
