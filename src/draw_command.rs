//! Colors and the draw commands that the rasterizer understands.

use vstd::prelude::*;

verus! {

/// A color with 8-bit red, green, blue and alpha channels.
#[derive(Clone, Copy, Debug, PartialEq, Eq, Structural)]
pub struct Color {
    pub r: u8,
    pub g: u8,
    pub b: u8,
    pub a: u8,
}

/// The 32-bit pixel of a color: alpha, red, green and blue from the top byte down.
pub open spec fn argb(c: Color) -> u32 {
    (c.a as int * 0x100_0000 + c.r as int * 0x1_0000 + c.g as int * 0x100 + c.b as int) as u32
}

impl Color {
    /// An opaque color.
    pub fn from_rgb(r: u8, g: u8, b: u8) -> (c: Color)
        ensures
            c == (Color { r, g, b, a: 255 }),
    {
        Color { r, g, b, a: 255 }
    }

    /// The 32-bit pixel of the color.
    pub fn to_argb(&self) -> (p: u32)
        ensures
            p == argb(*self),
    {
        let a = self.a as u32;
        let r = self.r as u32;
        let g = self.g as u32;
        let b = self.b as u32;
        assert((a << 24) | (r << 16) | (g << 8) | b == a * 0x100_0000 + r * 0x1_0000 + g * 0x100
            + b) by (bit_vector)
            requires
                a < 256 && r < 256 && g < 256 && b < 256,
        ;
        (a << 24) | (r << 16) | (g << 8) | b
    }
}

/// The sixteen colors of the PICO-8 palette.
#[derive(Clone, Copy, Debug, PartialEq, Eq, Structural)]
pub enum Palette {
    Black,
    DarkBlue,
    DarkPurple,
    DarkGreen,
    Brown,
    DarkGrey,
    LightGrey,
    White,
    Red,
    Orange,
    Yellow,
    Green,
    Blue,
    Lavender,
    Pink,
    LightPeach,
}

/// The red, green and blue channels of a palette entry.
pub open spec fn palette_rgb(p: Palette) -> (u8, u8, u8) {
    match p {
        Palette::Black => (0, 0, 0),
        Palette::DarkBlue => (29, 43, 83),
        Palette::DarkPurple => (126, 37, 83),
        Palette::DarkGreen => (0, 135, 81),
        Palette::Brown => (171, 82, 54),
        Palette::DarkGrey => (95, 87, 79),
        Palette::LightGrey => (194, 195, 199),
        Palette::White => (255, 241, 232),
        Palette::Red => (255, 0, 77),
        Palette::Orange => (255, 163, 0),
        Palette::Yellow => (255, 236, 39),
        Palette::Green => (0, 228, 54),
        Palette::Blue => (41, 173, 255),
        Palette::Lavender => (131, 118, 156),
        Palette::Pink => (255, 119, 168),
        Palette::LightPeach => (255, 204, 170),
    }
}

/// The opaque color of a palette entry.
pub open spec fn palette_color(p: Palette) -> Color {
    Color { r: palette_rgb(p).0, g: palette_rgb(p).1, b: palette_rgb(p).2, a: 255 }
}

impl Palette {
    /// The opaque color of this palette entry.
    pub fn color(self) -> (c: Color)
        ensures
            c == palette_color(self),
    {
        match self {
            Palette::Black => Color::from_rgb(0, 0, 0),
            Palette::DarkBlue => Color::from_rgb(29, 43, 83),
            Palette::DarkPurple => Color::from_rgb(126, 37, 83),
            Palette::DarkGreen => Color::from_rgb(0, 135, 81),
            Palette::Brown => Color::from_rgb(171, 82, 54),
            Palette::DarkGrey => Color::from_rgb(95, 87, 79),
            Palette::LightGrey => Color::from_rgb(194, 195, 199),
            Palette::White => Color::from_rgb(255, 241, 232),
            Palette::Red => Color::from_rgb(255, 0, 77),
            Palette::Orange => Color::from_rgb(255, 163, 0),
            Palette::Yellow => Color::from_rgb(255, 236, 39),
            Palette::Green => Color::from_rgb(0, 228, 54),
            Palette::Blue => Color::from_rgb(41, 173, 255),
            Palette::Lavender => Color::from_rgb(131, 118, 156),
            Palette::Pink => Color::from_rgb(255, 119, 168),
            Palette::LightPeach => Color::from_rgb(255, 204, 170),
        }
    }
}

/// A filled axis-aligned rectangle: the columns `x .. x + width` of the rows
/// `y .. y + height`.
#[derive(Clone, Copy, Debug, PartialEq, Eq, Structural)]
pub struct Rectangle {
    pub x: u32,
    pub y: u32,
    pub width: u32,
    pub height: u32,
    pub color: Color,
}

/// A line from `(x1, y1)` to `(x2, y2)`, both ends included.
#[derive(Clone, Copy, Debug, PartialEq, Eq, Structural)]
pub struct Line {
    pub x1: u32,
    pub y1: u32,
    pub x2: u32,
    pub y2: u32,
    pub color: Color,
}

/// The outline of a circle around `(x, y)`.
#[derive(Clone, Copy, Debug, PartialEq, Eq, Structural)]
pub struct Circle {
    pub x: u32,
    pub y: u32,
    pub radius: u32,
    pub color: Color,
}

/// One primitive to rasterize.
#[derive(Clone, Copy, Debug, PartialEq, Eq, Structural)]
pub enum DrawCommand {
    Rectangle(Rectangle),
    Line(Line),
    Circle(Circle),
}

} // verus!
