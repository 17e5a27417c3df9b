//! Packed 8-bit colors and display draw callbacks.

use vstd::prelude::*;

use super::GraphicsColorFormat;

verus! {

/// The value of four bytes read least significant first.
pub open spec fn le_word(b0: u8, b1: u8, b2: u8, b3: u8) -> int {
    b0 as int + 256 * (b1 as int) + 65536 * (b2 as int) + 16777216 * (b3 as int)
}

/// Reads four bytes as a `u32` in the machine's byte order, which is
/// little-endian or big-endian.
#[verifier::external_body]
fn u32_from_ne_bytes(bytes: [u8; 4]) -> (r: u32)
    ensures
        r == le_word(bytes[0], bytes[1], bytes[2], bytes[3]) || r == le_word(
            bytes[3],
            bytes[2],
            bytes[1],
            bytes[0],
        ),
{
    u32::from_ne_bytes(bytes)
}

/// An sRGB color with 8-bit per-channel components.
///
/// Conversion to and from linear-space sRGB works on floating-point
/// channels and lives outside the verified library.
#[derive(Debug, Clone, Copy, PartialEq, Eq, Structural, Hash)]
pub struct Color {
    /// Red channel.
    pub r: u8,
    /// Green channel.
    pub g: u8,
    /// Blue channel.
    pub b: u8,
    /// Alpha channel.
    pub a: u8,
}

impl Color {
    /// Opaque black.
    pub fn black() -> (c: Self)
        ensures
            c == (Color { r: 0, g: 0, b: 0, a: 255 }),
    {
        Color { r: 0, g: 0, b: 0, a: 255 }
    }

    /// Opaque white.
    pub fn white() -> (c: Self)
        ensures
            c == (Color { r: 255, g: 255, b: 255, a: 255 }),
    {
        Color { r: 255, g: 255, b: 255, a: 255 }
    }

    /// Opaque red.
    pub fn red() -> (c: Self)
        ensures
            c == (Color { r: 255, g: 0, b: 0, a: 255 }),
    {
        Color { r: 255, g: 0, b: 0, a: 255 }
    }

    /// Opaque green.
    pub fn green() -> (c: Self)
        ensures
            c == (Color { r: 0, g: 255, b: 0, a: 255 }),
    {
        Color { r: 0, g: 255, b: 0, a: 255 }
    }

    /// Opaque blue.
    pub fn blue() -> (c: Self)
        ensures
            c == (Color { r: 0, g: 0, b: 255, a: 255 }),
    {
        Color { r: 0, g: 0, b: 255, a: 255 }
    }

    /// Constructs a color from raw 8-bit per-channel components.
    pub fn new(r: u8, g: u8, b: u8, a: u8) -> (c: Self)
        ensures
            c == (Color { r, g, b, a }),
    {
        Color { r, g, b, a }
    }

    /// Whether `w` is the four bytes `b0 b1 b2 b3` laid out in memory in
    /// one of the two byte orders a machine can have.
    pub open spec fn packs(w: u32, b0: u8, b1: u8, b2: u8, b3: u8) -> bool {
        w == le_word(b0, b1, b2, b3) || w == le_word(b3, b2, b1, b0)
    }

    /// Encodes the color as a packed RGBA `u32`: the word whose bytes in
    /// memory are red, green, blue, alpha.
    pub fn as_rgba(self) -> (w: u32)
        ensures
            Self::packs(w, self.r, self.g, self.b, self.a),
    {
        u32_from_ne_bytes([self.r, self.g, self.b, self.a])
    }

    /// Encodes the color as a packed BGRA `u32`: the word whose bytes in
    /// memory are blue, green, red, alpha.
    pub fn as_bgra(self) -> (w: u32)
        ensures
            Self::packs(w, self.b, self.g, self.r, self.a),
    {
        u32_from_ne_bytes([self.b, self.g, self.r, self.a])
    }

    /// Encodes the color as a packed 32-bit value in `format`, which must
    /// be [`GraphicsColorFormat::RGBA`] or [`GraphicsColorFormat::BGRA`].
    pub fn as_format(self, format: GraphicsColorFormat) -> (w: u32)
        requires
            format == GraphicsColorFormat::RGBA || format == GraphicsColorFormat::BGRA,
        ensures
            format == GraphicsColorFormat::RGBA ==> Self::packs(w, self.r, self.g, self.b, self.a),
            format == GraphicsColorFormat::BGRA ==> Self::packs(w, self.b, self.g, self.r, self.a),
    {
        match format {
            GraphicsColorFormat::RGBA => self.as_rgba(),
            _ => self.as_bgra(),
        }
    }
}

/// Reading four bytes in a fixed byte order loses nothing: equal words come
/// from equal bytes, so a packed color determines its channels once the
/// byte order is known.
pub proof fn lemma_packing_injective(b0: u8, b1: u8, b2: u8, b3: u8, c0: u8, c1: u8, c2: u8, c3: u8)
    ensures
        le_word(b0, b1, b2, b3) == le_word(c0, c1, c2, c3) ==> b0 == c0 && b1 == c1 && b2 == c2
            && b3 == c3,
{
}

/// A type that can be invoked as a display draw callback.
pub trait DrawCallback {
    /// Renders into the active display; `cx` and `cy` are the display's
    /// current width and height in pixels.
    fn draw(&self, cx: u32, cy: u32);
}

} // verus!
