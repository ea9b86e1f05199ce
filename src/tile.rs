use vstd::prelude::*;

verus! {

/// A colour with eight bits per red, green, blue and alpha channel.
#[derive(Clone, Copy, Debug, PartialEq, Eq, Structural)]
pub struct Color {
    pub r: u8,
    pub g: u8,
    pub b: u8,
    pub a: u8,
}

pub open spec fn white() -> Color {
    Color { r: 255, g: 255, b: 255, a: 255 }
}

pub open spec fn black() -> Color {
    Color { r: 0, g: 0, b: 0, a: 255 }
}

pub open spec fn blue() -> Color {
    Color { r: 0, g: 0, b: 255, a: 255 }
}

impl Color {
    pub fn white() -> (c: Color)
        ensures
            c == white(),
    {
        Color { r: 255, g: 255, b: 255, a: 255 }
    }

    pub fn black() -> (c: Color)
        ensures
            c == black(),
    {
        Color { r: 0, g: 0, b: 0, a: 255 }
    }

    pub fn blue() -> (c: Color)
        ensures
            c == blue(),
    {
        Color { r: 0, g: 0, b: 255, a: 255 }
    }
}

/// One cell of the character grid: a glyph with its foreground and
/// background colours.
#[derive(Clone, Copy, Debug, PartialEq, Eq, Structural)]
pub struct Tile {
    pub ch: char,
    pub fg: Color,
    pub bg: Color,
}

impl Tile {
    /// A tile showing `ch` white on black.
    pub fn new(ch: char) -> (t: Tile)
        ensures
            t == (Tile { ch, fg: white(), bg: black() }),
    {
        Tile { ch, fg: Color::white(), bg: Color::black() }
    }

    pub fn with_fg(self, color: Color) -> (t: Tile)
        ensures
            t == (Tile { fg: color, ..self }),
    {
        Tile { fg: color, ..self }
    }

    pub fn with_bg(self, color: Color) -> (t: Tile)
        ensures
            t == (Tile { bg: color, ..self }),
    {
        Tile { bg: color, ..self }
    }
}

impl Default for Tile {
    /// A blank tile, white on black.
    fn default() -> (t: Tile)
        ensures
            t == (Tile { ch: ' ', fg: white(), bg: black() }),
    {
        Tile::new(' ')
    }
}

} // verus!
