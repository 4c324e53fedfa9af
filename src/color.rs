//! Pixel encodings: 1-bit monochrome, eight pixels to a byte, and 4-bit
//! palette indices, two pixels to a byte (high nibble first).
use vstd::prelude::*;

verus! {

/// How pixels are packed into the bytes a panel receives.
#[derive(Clone, Copy, Debug, PartialEq, Eq, Structural)]
pub enum PixelEncoding {
    /// One bit per pixel, most significant bit first.
    Monochrome,
    /// One 4-bit palette index per pixel, high nibble first.
    Indexed4,
}

impl PixelEncoding {
    pub open spec fn spec_pixels_per_byte(self) -> u32 {
        match self {
            PixelEncoding::Monochrome => 8,
            PixelEncoding::Indexed4 => 2,
        }
    }

    /// Pixels held by one byte of a buffer.
    #[verifier::when_used_as_spec(spec_pixels_per_byte)]
    pub fn pixels_per_byte(self) -> (r: u32)
        ensures
            r == self.spec_pixels_per_byte(),
    {
        match self {
            PixelEncoding::Monochrome => 8,
            PixelEncoding::Indexed4 => 2,
        }
    }

    /// Bytes of a buffer for a `width` by `height` panel.
    pub fn buffer_len(self, width: u32, height: u32) -> (r: u32)
        requires
            width * height <= u32::MAX,
        ensures
            r as int == (width * height) / (self.spec_pixels_per_byte() as int),
    {
        width * height / self.pixels_per_byte()
    }
}

/// The two colors of a monochrome panel.
#[derive(Clone, Copy, Debug, PartialEq, Eq, Structural)]
pub enum Color {
    Black,
    White,
}

impl Color {
    pub open spec fn spec_byte_value(self) -> u8 {
        match self {
            Color::Black => 0x00,
            Color::White => 0xff,
        }
    }

    /// A byte of eight pixels of this color.
    #[verifier::when_used_as_spec(spec_byte_value)]
    pub fn get_byte_value(self) -> (r: u8)
        ensures
            r == self.spec_byte_value(),
    {
        match self {
            Color::Black => 0x00,
            Color::White => 0xff,
        }
    }

    pub open spec fn spec_inverse(self) -> Color {
        match self {
            Color::Black => Color::White,
            Color::White => Color::Black,
        }
    }

    /// The other color.
    #[verifier::when_used_as_spec(spec_inverse)]
    pub fn inverse(self) -> (r: Color)
        ensures
            r == self.spec_inverse(),
    {
        match self {
            Color::Black => Color::White,
            Color::White => Color::Black,
        }
    }
}

/// The eight palette entries of a 7-color panel (the eighth leaves the
/// pixel undriven).
#[derive(Clone, Copy, Debug, PartialEq, Eq, Structural)]
pub enum OctColor {
    Black,
    White,
    Green,
    Blue,
    Red,
    Yellow,
    Orange,
    HiZ,
}

impl OctColor {
    pub open spec fn spec_nibble(self) -> u8 {
        match self {
            OctColor::Black => 0x0,
            OctColor::White => 0x1,
            OctColor::Green => 0x2,
            OctColor::Blue => 0x3,
            OctColor::Red => 0x4,
            OctColor::Yellow => 0x5,
            OctColor::Orange => 0x6,
            OctColor::HiZ => 0x7,
        }
    }

    /// The palette index of this color.
    #[verifier::when_used_as_spec(spec_nibble)]
    pub fn get_nibble(self) -> (r: u8)
        ensures
            r == self.spec_nibble(),
            r < 8,
    {
        match self {
            OctColor::Black => 0x0,
            OctColor::White => 0x1,
            OctColor::Green => 0x2,
            OctColor::Blue => 0x3,
            OctColor::Red => 0x4,
            OctColor::Yellow => 0x5,
            OctColor::Orange => 0x6,
            OctColor::HiZ => 0x7,
        }
    }

    /// The color with palette index `nibble`; `None` for an index outside
    /// the palette.
    pub fn from_nibble(nibble: u8) -> (r: Option<OctColor>)
        ensures
            nibble < 8 <==> r.is_some(),
            r matches Some(c) ==> c.spec_nibble() == nibble,
    {
        match nibble {
            0x0 => Some(OctColor::Black),
            0x1 => Some(OctColor::White),
            0x2 => Some(OctColor::Green),
            0x3 => Some(OctColor::Blue),
            0x4 => Some(OctColor::Red),
            0x5 => Some(OctColor::Yellow),
            0x6 => Some(OctColor::Orange),
            0x7 => Some(OctColor::HiZ),
            _ => None,
        }
    }

    pub open spec fn spec_colors_byte(a: OctColor, b: OctColor) -> u8 {
        (a.spec_nibble() * 16 + b.spec_nibble()) as u8
    }

    /// The byte for two neighbouring pixels: `a` in the high nibble, `b` in
    /// the low one.
    #[verifier::when_used_as_spec(spec_colors_byte)]
    pub fn colors_byte(a: OctColor, b: OctColor) -> (r: u8)
        ensures
            r == Self::spec_colors_byte(a, b),
            r as int == a.spec_nibble() * 16 + b.spec_nibble(),
    {
        a.get_nibble() * 16 + b.get_nibble()
    }
}

} // verus!
