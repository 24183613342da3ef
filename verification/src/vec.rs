//! Integer colour triples and their packed 24-bit form.

use vstd::prelude::*;

verus! {

/// Largest value of a displayable colour channel.
pub const CHANNEL_MAX: u32 = 255;

/// Packed form of three channels: red in bits 16..24, green in bits 8..16,
/// blue in bits 0..8.
pub open spec fn pack(r: u32, g: u32, b: u32) -> u32 {
    (r << 16) | (g << 8) | b
}

/// The red channel of a packed colour.
pub open spec fn red_of(hex: u32) -> u8 {
    ((hex >> 16) & 0xff) as u8
}

/// The green channel of a packed colour.
pub open spec fn green_of(hex: u32) -> u8 {
    ((hex >> 8) & 0xff) as u8
}

/// The blue channel of a packed colour.
pub open spec fn blue_of(hex: u32) -> u8 {
    (hex & 0xff) as u8
}

/// A colour as three integer channels, red first.
#[derive(Clone, Copy, Debug, PartialEq, Eq, Structural)]
pub struct Vec3i {
    r: u32,
    g: u32,
    b: u32,
}

impl View for Vec3i {
    type V = (u32, u32, u32);

    closed spec fn view(&self) -> (u32, u32, u32) {
        (self.r, self.g, self.b)
    }
}

impl Vec3i {
    /// True when every channel fits in eight bits.
    pub open spec fn displayable(&self) -> bool {
        self@.0 <= CHANNEL_MAX && self@.1 <= CHANNEL_MAX && self@.2 <= CHANNEL_MAX
    }

    /// The colour with red `x`, green `y` and blue `z`.
    pub fn new(x: u32, y: u32, z: u32) -> (v: Vec3i)
        ensures
            v@ == (x, y, z),
    {
        Vec3i { r: x, g: y, b: z }
    }

    /// Packs the three channels into one integer. Channels that fit in eight
    /// bits give a 24-bit colour; wider ones run into their neighbours' bits.
    pub fn to_hex(&self) -> (hex: u32)
        ensures
            hex == pack(self@.0, self@.1, self@.2),
            self.displayable() ==> hex == self@.0 * 65536 + self@.1 * 256 + self@.2,
            self.displayable() ==> hex <= 0xff_ffff,
    {
        let r: u32 = self.r;
        let g: u32 = self.g;
        let b: u32 = self.b;
        assert(r <= 255 && g <= 255 && b <= 255 ==> ((r << 16) | (g << 8) | b) == r * 65536 + g
            * 256 + b) by (bit_vector);
        (r << 16) | (g << 8) | b
    }
}

/// The three channels of a packed colour, red first.
pub fn channels(hex: u32) -> (rgb: (u8, u8, u8))
    ensures
        rgb == (red_of(hex), green_of(hex), blue_of(hex)),
{
    assert((hex >> 16) & 0xff < 256 && (hex >> 8) & 0xff < 256 && hex & 0xff < 256)
        by (bit_vector);
    (((hex >> 16) & 0xff) as u8, ((hex >> 8) & 0xff) as u8, (hex & 0xff) as u8)
}

/// Unpacking gives back the channels that were packed, as long as each fits
/// in eight bits.
pub proof fn lemma_pack_unpack(r: u32, g: u32, b: u32)
    requires
        r <= CHANNEL_MAX,
        g <= CHANNEL_MAX,
        b <= CHANNEL_MAX,
    ensures
        red_of(pack(r, g, b)) == r,
        green_of(pack(r, g, b)) == g,
        blue_of(pack(r, g, b)) == b,
{
    assert(r <= 255 && g <= 255 && b <= 255 ==> {
        let hex = (r << 16) | (g << 8) | b;
        &&& ((hex >> 16) & 0xff) as u8 == r
        &&& ((hex >> 8) & 0xff) as u8 == g
        &&& (hex & 0xff) as u8 == b
    }) by (bit_vector);
}

/// Packing the channels of a 24-bit colour gives the colour back.
pub proof fn lemma_unpack_pack(hex: u32)
    requires
        hex <= 0xff_ffff,
    ensures
        pack(red_of(hex) as u32, green_of(hex) as u32, blue_of(hex) as u32) == hex,
{
    assert(hex <= 0xff_ffff ==> ((((hex >> 16) & 0xff) as u8 as u32) << 16) | ((((hex >> 8)
        & 0xff) as u8 as u32) << 8) | ((hex & 0xff) as u8 as u32) == hex) by (bit_vector);
}

} // verus!
