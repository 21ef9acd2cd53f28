//! Map tiles and their glyphs.

use vstd::prelude::*;

verus! {

/// One cell of static terrain.
#[derive(Copy, Clone, Debug, PartialEq, Eq, Structural, Hash)]
pub enum Tile {
    Empty,
    Wall,
    Floor,
}

/// The glyph each tile variant is drawn with.
pub open spec fn tile_char(t: Tile) -> char {
    match t {
        Tile::Empty => ' ',
        Tile::Wall => '#',
        Tile::Floor => '.',
    }
}

impl Tile {
    /// The character this tile is rendered as.
    pub fn to_char(&self) -> (c: char)
        ensures
            c == tile_char(*self),
    {
        match self {
            Tile::Empty => ' ',
            Tile::Wall => '#',
            Tile::Floor => '.',
        }
    }
}

} // verus!
