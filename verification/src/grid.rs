//! The static tile grid: a fixed width x height rectangle of tiles stored
//! row-major, created once at setup and only edited cell by cell.

use vstd::prelude::*;

use crate::tile::Tile;
use crate::tile::tile_char;

verus! {

/// A fixed-size grid of tiles, addressed by (x, y) with x a column in
/// [0, width) and y a row in [0, height), stored row-major.
#[derive(Clone, Debug)]
pub struct TileMap {
    pub width: usize,
    pub height: usize,
    pub tiles: Vec<Tile>,
}

impl TileMap {
    /// The storage matches the advertised rectangle.
    pub open spec fn wf(self) -> bool {
        self.tiles@.len() == self.width * self.height
    }

    /// Whether (x, y) lies inside the map rectangle.
    pub open spec fn spec_in_bounds(self, x: int, y: int) -> bool {
        0 <= x < self.width && 0 <= y < self.height
    }

    /// The tile stored at (x, y).
    pub open spec fn tile_at(self, x: int, y: int) -> Tile
        recommends
            self.wf(),
            self.spec_in_bounds(x, y),
    {
        self.tiles@[x + y * self.width]
    }

    /// Builds a width x height map in which every tile is `fill`.
    pub fn new(width: usize, height: usize, fill: Tile) -> (m: TileMap)
        requires
            width * height <= usize::MAX,
        ensures
            m.wf(),
            m.width == width,
            m.height == height,
            forall|x: int, y: int| m.spec_in_bounds(x, y) ==> m.tile_at(x, y) == fill,
    {
        let n: usize = width * height;
        let mut tiles: Vec<Tile> = Vec::new();
        let mut i: usize = 0;
        while i < n
            invariant
                i <= n,
                tiles@.len() == i,
                forall|k: int| 0 <= k < i ==> tiles@[k] == fill,
            decreases n - i,
        {
            tiles.push(fill);
            i = i + 1;
        }
        let m = TileMap { width, height, tiles };
        proof {
            assert forall|x: int, y: int| m.spec_in_bounds(x, y) implies m.tile_at(x, y)
                == fill by {
                assert(x + y * width < width * height) by (nonlinear_arith)
                    requires
                        0 <= x < width,
                        0 <= y < height,
                ;
            }
        }
        m
    }

    /// Whether (x, y) lies inside the map rectangle.
    pub fn in_bounds(&self, x: usize, y: usize) -> (b: bool)
        ensures
            b == self.spec_in_bounds(x as int, y as int),
    {
        x < self.width && y < self.height
    }

    /// Reads the tile at (x, y).
    pub fn index(&self, x: usize, y: usize) -> (t: Tile)
        requires
            self.wf(),
            self.spec_in_bounds(x as int, y as int),
        ensures
            t == self.tile_at(x as int, y as int),
    {
        let n: usize = self.tiles.len();
        proof {
            assert(x + y * self.width < self.width * self.height) by (nonlinear_arith)
                requires
                    0 <= x < self.width,
                    0 <= y < self.height,
            ;
        }
        self.tiles[x + y * self.width]
    }

    /// Replaces the tile at (x, y); every other tile is kept.
    pub fn set_tile(&mut self, x: usize, y: usize, t: Tile)
        requires
            old(self).wf(),
            old(self).spec_in_bounds(x as int, y as int),
        ensures
            final(self).wf(),
            final(self).width == old(self).width,
            final(self).height == old(self).height,
            final(self).tile_at(x as int, y as int) == t,
            forall|a: int, b: int|
                old(self).spec_in_bounds(a, b) && !(a == x && b == y) ==> final(self).tile_at(a, b)
                    == old(self).tile_at(a, b),
    {
        let n: usize = self.tiles.len();
        proof {
            assert(x + y * self.width < self.width * self.height) by (nonlinear_arith)
                requires
                    0 <= x < self.width,
                    0 <= y < self.height,
            ;
        }
        let i: usize = x + y * self.width;
        self.tiles[i] = t;
        proof {
            assert forall|a: int, b: int|
                old(self).spec_in_bounds(a, b) && !(a == x && b == y) implies final(self).tile_at(
                a,
                b,
            ) == old(self).tile_at(a, b) by {
                assert(a + b * self.width != x + y * self.width && a + b * self.width < self.width
                    * self.height) by (nonlinear_arith)
                    requires
                        0 <= a < self.width,
                        0 <= b < self.height,
                        0 <= x < self.width,
                        0 <= y < self.height,
                        !(a == x && b == y),
                ;
            }
        }
    }
}

} // verus!
