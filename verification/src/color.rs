//! Colours as three eight-bit channels unpacked from a 24-bit integer.
//!
//! A channel is kept as its numerator over [`CHANNEL_MAX`]; whoever hands a
//! colour to a rasteriser divides by that constant.

use vstd::prelude::*;

verus! {

/// The denominator of every channel: a channel `c` stands for `c / 255`.
pub const CHANNEL_MAX: u8 = 255;

/// The red, green and blue channels that a packed colour holds: bits 16 to
/// 23, bits 8 to 15 and bits 0 to 7. Bits 24 and above are ignored.
pub open spec fn unpack(hex: u32) -> (u8, u8, u8) {
    (((hex >> 16) & 0xFF) as u8, ((hex >> 8) & 0xFF) as u8, (hex & 0xFF) as u8)
}

/// The 24-bit integer that holds the three channels.
pub open spec fn pack(channels: (u8, u8, u8)) -> int {
    channels.0 as int * 65536 + channels.1 as int * 256 + channels.2 as int
}

/// A colour: three channels, each a numerator over [`CHANNEL_MAX`].
#[derive(Debug, Clone, Copy, PartialEq, Eq, Structural)]
pub struct Rgb {
    r: u8,
    g: u8,
    b: u8,
}

impl View for Rgb {
    type V = (u8, u8, u8);

    closed spec fn view(&self) -> (u8, u8, u8) {
        (self.r, self.g, self.b)
    }
}

impl Rgb {
    /// The colour with the given channels.
    pub fn new(r: u8, g: u8, b: u8) -> (c: Rgb)
        ensures
            c@ == (r, g, b),
    {
        Rgb { r, g, b }
    }

    /// Unpacks a 24-bit colour. Total: whatever stands above bit 23 is dropped.
    pub fn from_hex(hex: u32) -> (c: Rgb)
        ensures
            c@ == unpack(hex),
    {
        let r: u32 = (hex >> 16) & 0xFF;
        let g: u32 = (hex >> 8) & 0xFF;
        let b: u32 = hex & 0xFF;
        assert(r < 256 && g < 256 && b < 256) by (bit_vector)
            requires
                r == (hex >> 16) & 0xFF,
                g == (hex >> 8) & 0xFF,
                b == hex & 0xFF,
        ;
        Rgb::new(r as u8, g as u8, b as u8)
    }

    /// The three channels, red first.
    pub fn components(&self) -> (t: (u8, u8, u8))
        ensures
            t == self@,
    {
        (self.r, self.g, self.b)
    }
}

/// Unpacking reads each channel as a base-256 digit of the packed integer:
/// red is the third digit, green the second, blue the first.
pub proof fn lemma_unpack_digits(hex: u32)
    ensures
        unpack(hex).0 == (hex as int / 65536) % 256,
        unpack(hex).1 == (hex as int / 256) % 256,
        unpack(hex).2 == hex as int % 256,
{
    assert((hex >> 16) & 0xFF == (hex / 65536) % 256) by (bit_vector);
    assert((hex >> 8) & 0xFF == (hex / 256) % 256) by (bit_vector);
    assert(hex & 0xFF == hex % 256) by (bit_vector);
    assert((hex >> 16) & 0xFF < 256) by (bit_vector);
    assert((hex >> 8) & 0xFF < 256) by (bit_vector);
    assert(hex & 0xFF < 256) by (bit_vector);
}

/// Packing what was unpacked gives back the low 24 bits, so on a 24-bit
/// input unpacking loses nothing.
pub proof fn lemma_pack_unpack(hex: u32)
    ensures
        pack(unpack(hex)) == hex as int % 0x100_0000,
        hex <= 0xFF_FFFF ==> pack(unpack(hex)) == hex,
{
    let r: u32 = (hex >> 16) & 0xFF;
    let g: u32 = (hex >> 8) & 0xFF;
    let b: u32 = hex & 0xFF;
    assert(r < 256 && g < 256 && b < 256 && r * 65536 + g * 256 + b == hex % 0x100_0000)
        by (bit_vector)
        requires
            r == (hex >> 16) & 0xFF,
            g == (hex >> 8) & 0xFF,
            b == hex & 0xFF,
    ;
}

/// Every triple of channels is the unpacking of the integer that packs it.
pub proof fn lemma_unpack_pack(r: u8, g: u8, b: u8)
    ensures
        0 <= pack((r, g, b)) <= 0xFF_FFFF,
        unpack(pack((r, g, b)) as u32) == (r, g, b),
{
    let hex: u32 = (r as u32 * 65536 + g as u32 * 256 + b as u32) as u32;
    assert(((hex >> 16) & 0xFF) as u8 == r && ((hex >> 8) & 0xFF) as u8 == g && (hex & 0xFF) as u8
        == b) by (bit_vector)
        requires
            hex == r as u32 * 65536 + g as u32 * 256 + b as u32,
    ;
}

} // verus!
