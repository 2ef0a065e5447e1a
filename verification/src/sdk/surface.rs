use vstd::prelude::*;

verus! {

/// How a gradient runs across a rectangle.
#[derive(Debug, Clone, Copy, PartialEq, Eq, Structural)]
pub enum GradientType {
    GradientHorizontal,
    GradientVertical,
}

/// A color with red, green, blue and alpha channels.
#[derive(Debug, Clone, Copy, PartialEq, Eq, Structural)]
pub struct Color {
    pub r: i32,
    pub g: i32,
    pub b: i32,
    pub a: i32,
}

/// The byte of `hex` that sits `shift` bits up: `(hex >> shift) & 0xff`.
pub open spec fn hex_byte(hex: u32, shift: int) -> int {
    (hex as int / pow2_of(shift)) % 256
}

/// 2 to the power 0, 8, 16 or 24.
pub open spec fn pow2_of(shift: int) -> int {
    if shift == 0 {
        1
    } else if shift == 8 {
        256
    } else if shift == 16 {
        65536
    } else {
        16777216
    }
}

/// The word `0xAARRGGBB` that packs four channel values of 0 to 255.
pub open spec fn packed_argb(r: int, g: int, b: int, a: int) -> int {
    a * 16777216 + r * 65536 + g * 256 + b
}

impl Color {
    /// The color packed as `0xAARRGGBB`: alpha in the top byte, then red, green, blue.
    pub fn new_hex(hex: u32) -> (c: Color)
        ensures
            c.r == hex_byte(hex, 16),
            c.g == hex_byte(hex, 8),
            c.b == hex_byte(hex, 0),
            c.a == hex_byte(hex, 24),
    {
        let r = (hex >> 16) & 0xff;
        let g = (hex >> 8) & 0xff;
        let b = hex & 0xff;
        let a = (hex >> 24) & 0xff;
        assert(r == (hex / 65536) % 256) by (bit_vector)
            requires
                r == (hex >> 16) & 0xff,
        ;
        assert(g == (hex / 256) % 256) by (bit_vector)
            requires
                g == (hex >> 8) & 0xff,
        ;
        assert(b == hex % 256) by (bit_vector)
            requires
                b == hex & 0xff,
        ;
        assert(a == (hex / 16777216) % 256) by (bit_vector)
            requires
                a == (hex >> 24) & 0xff,
        ;
        Self::new_rgba(r as i32, g as i32, b as i32, a as i32)
    }

    /// An opaque color: alpha 255.
    pub fn new_rgb(r: i32, g: i32, b: i32) -> (c: Color)
        ensures
            c == (Color { r, g, b, a: 255 }),
    {
        Self::new_rgba(r, g, b, 255)
    }

    /// The color with the given channels.
    pub fn new_rgba(r: i32, g: i32, b: i32, a: i32) -> (c: Color)
        ensures
            c == (Color { r, g, b, a }),
    {
        Self { r, g, b, a }
    }
}

/// Unpacking a packed color gives back the channels that were packed, for channel
/// values of 0 to 255.
pub proof fn law_hex_round_trip(r: int, g: int, b: int, a: int)
    requires
        0 <= r < 256,
        0 <= g < 256,
        0 <= b < 256,
        0 <= a < 256,
    ensures
        packed_argb(r, g, b, a) <= u32::MAX,
        hex_byte(packed_argb(r, g, b, a) as u32, 16) == r,
        hex_byte(packed_argb(r, g, b, a) as u32, 8) == g,
        hex_byte(packed_argb(r, g, b, a) as u32, 0) == b,
        hex_byte(packed_argb(r, g, b, a) as u32, 24) == a,
{
    lemma_unpack_channels(packed_argb(r, g, b, a), r, g, b, a);
}

/// The four bytes of `a·2^24 + r·2^16 + g·2^8 + b`, for byte-sized channels.
proof fn lemma_unpack_channels(x: int, r: int, g: int, b: int, a: int)
    by (nonlinear_arith)
    requires
        x == a * 16777216 + r * 65536 + g * 256 + b,
        0 <= r < 256,
        0 <= g < 256,
        0 <= b < 256,
        0 <= a < 256,
    ensures
        0 <= x <= u32::MAX,
        (x / 65536) % 256 == r,
        (x / 256) % 256 == g,
        x % 256 == b,
        (x / 16777216) % 256 == a,
{
}

/// Every channel that `new_hex` unpacks lies between 0 and 255.
pub proof fn law_hex_channels_are_bytes(hex: u32, shift: int)
    requires
        shift == 0 || shift == 8 || shift == 16 || shift == 24,
    ensures
        0 <= hex_byte(hex, shift) < 256,
{
}

} // verus!
