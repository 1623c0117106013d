use vstd::prelude::*;

verus! {

/// A colour as four premultiplied bytes: red, green, blue and alpha.
#[derive(Clone, Copy, Debug, PartialEq, Eq, Structural)]
pub struct Color {
    pub r: u8,
    pub g: u8,
    pub b: u8,
    pub a: u8,
}

/// An opaque colour from its red, green and blue parts.
pub open spec fn opaque(r: u8, g: u8, b: u8) -> Color {
    Color { r, g, b, a: 255 }
}

/// Builds an opaque colour.
pub fn from_rgb(r: u8, g: u8, b: u8) -> (c: Color)
    ensures
        c == opaque(r, g, b),
{
    Color { r, g, b, a: 255 }
}

/// The named colours of the classic desktop look.
#[derive(Clone, Copy, Debug, PartialEq, Eq, Structural)]
pub enum Palette {
    Gray,
    Navy,
    DarkGray,
    LightGray,
    White,
    Black,
}

impl Palette {
    /// The colour that a palette entry stands for.
    pub open spec fn spec_color(self) -> Color {
        match self {
            Palette::Gray => opaque(192, 192, 192),
            Palette::Navy => opaque(0, 0, 128),
            Palette::DarkGray => opaque(128, 128, 128),
            Palette::LightGray => opaque(223, 223, 223),
            Palette::White => opaque(255, 255, 255),
            Palette::Black => opaque(0, 0, 0),
        }
    }

    /// The colour of this palette entry.
    pub fn color(self) -> (c: Color)
        ensures
            c == self.spec_color(),
            c.a == 255,
            self == Palette::Gray ==> c.r == 192 && c.g == 192 && c.b == 192,
            self == Palette::Navy ==> c.r == 0 && c.g == 0 && c.b == 128,
            self == Palette::DarkGray ==> c.r == 128 && c.g == 128 && c.b == 128,
            self == Palette::LightGray ==> c.r == 223 && c.g == 223 && c.b == 223,
            self == Palette::White ==> c.r == 255 && c.g == 255 && c.b == 255,
            self == Palette::Black ==> c.r == 0 && c.g == 0 && c.b == 0,
    {
        match self {
            Palette::Gray => from_rgb(192, 192, 192),
            Palette::Navy => from_rgb(0, 0, 128),
            Palette::DarkGray => from_rgb(128, 128, 128),
            Palette::LightGray => from_rgb(223, 223, 223),
            Palette::White => from_rgb(255, 255, 255),
            Palette::Black => from_rgb(0, 0, 0),
        }
    }
}

} // verus!
