use vstd::prelude::*;

verus! {

/// An RGBA colour, eight bits per channel.
#[derive(Clone, Copy, Debug, PartialEq, Eq, Structural)]
pub struct Color {
    pub r: u8,
    pub g: u8,
    pub b: u8,
    pub a: u8,
}

impl Color {
    pub fn new(r: u8, g: u8, b: u8, a: u8) -> (res: Color)
        ensures
            res == (Color { r, g, b, a }),
    {
        Color { r, g, b, a }
    }

    pub fn black() -> (res: Color)
        ensures
            res == (Color { r: 0, g: 0, b: 0, a: 255 }),
    {
        Color { r: 0, g: 0, b: 0, a: 255 }
    }

    pub fn white() -> (res: Color)
        ensures
            res == (Color { r: 255, g: 255, b: 255, a: 255 }),
    {
        Color { r: 255, g: 255, b: 255, a: 255 }
    }

    pub fn orange() -> (res: Color)
        ensures
            res == (Color { r: 255, g: 161, b: 0, a: 255 }),
    {
        Color { r: 255, g: 161, b: 0, a: 255 }
    }

    pub fn green() -> (res: Color)
        ensures
            res == (Color { r: 0, g: 228, b: 48, a: 255 }),
    {
        Color { r: 0, g: 228, b: 48, a: 255 }
    }
}

/// What one grid cell shows and whether it can be walked on.
///
/// A tile is a plain value: putting it into a cell or an entity copies it.
#[derive(Clone, Copy, Debug, PartialEq, Eq, Structural)]
pub struct Tile {
    pub symbol: char,
    pub fg_color: Color,
    pub bg_color: Color,
    pub passable: bool,
}

impl Tile {
    pub fn new(symbol: char, fg_color: Color, bg_color: Color, passable: bool) -> (res: Tile)
        ensures
            res == (Tile { symbol, fg_color, bg_color, passable }),
    {
        Tile { symbol, fg_color, bg_color, passable }
    }

    /// The floor tile: an orange dot on black, passable.
    pub open spec fn floor_spec() -> Tile {
        Tile {
            symbol: '.',
            fg_color: Color { r: 255, g: 161, b: 0, a: 255 },
            bg_color: Color { r: 0, g: 0, b: 0, a: 255 },
            passable: true,
        }
    }

    /// The player's tile: a green `@` on white, not passable.
    pub open spec fn player_spec() -> Tile {
        Tile {
            symbol: '@',
            fg_color: Color { r: 0, g: 228, b: 48, a: 255 },
            bg_color: Color { r: 255, g: 255, b: 255, a: 255 },
            passable: false,
        }
    }

    pub fn floor() -> (res: Tile)
        ensures
            res == Self::floor_spec(),
    {
        Tile { symbol: '.', fg_color: Color::orange(), bg_color: Color::black(), passable: true }
    }

    pub fn player() -> (res: Tile)
        ensures
            res == Self::player_spec(),
    {
        Tile { symbol: '@', fg_color: Color::green(), bg_color: Color::white(), passable: false }
    }
}

} // verus!
