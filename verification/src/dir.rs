//! The eight compass directions, named after the numpad keys, and the
//! letter-key mapping that selects one.

use vstd::prelude::*;

verus! {

/// One of the eight directions corresponding to the numpad layout:
/// 7 8 9 over 4 . 6 over 1 2 3, with y growing downward.
#[derive(Copy, Clone, Debug, PartialEq, Eq, Structural, Hash)]
pub enum Dir8 {
    D1,
    D2,
    D3,
    D4,
    D6,
    D7,
    D8,
    D9,
}

/// The unit step each direction takes, as (dx, dy) with each component
/// in {-1, 0, 1} and never (0, 0).
pub open spec fn dir_delta(d: Dir8) -> (int, int) {
    match d {
        Dir8::D7 => (-1, -1),
        Dir8::D8 => (0, -1),
        Dir8::D9 => (1, -1),
        Dir8::D4 => (-1, 0),
        Dir8::D6 => (1, 0),
        Dir8::D1 => (-1, 1),
        Dir8::D2 => (0, 1),
        Dir8::D3 => (1, 1),
    }
}

/// The direction a movement key selects, case-insensitively:
/// q NW, w N, e NE, a W, d E, z SW, x S, c SE; any other key none.
pub open spec fn key_dir(c: char) -> Option<Dir8> {
    match c {
        'q' | 'Q' => Some(Dir8::D7),
        'w' | 'W' => Some(Dir8::D8),
        'e' | 'E' => Some(Dir8::D9),
        'a' | 'A' => Some(Dir8::D4),
        'd' | 'D' => Some(Dir8::D6),
        'z' | 'Z' => Some(Dir8::D1),
        'x' | 'X' => Some(Dir8::D2),
        'c' | 'C' => Some(Dir8::D3),
        _ => None,
    }
}

impl Dir8 {
    /// The unit step this direction takes.
    pub fn to_vec(&self) -> (v: (i32, i32))
        ensures
            (v.0 as int, v.1 as int) == dir_delta(*self),
    {
        match self {
            Self::D7 => (-1, -1),
            Self::D8 => (0, -1),
            Self::D9 => (1, -1),
            Self::D4 => (-1, 0),
            Self::D6 => (1, 0),
            Self::D1 => (-1, 1),
            Self::D2 => (0, 1),
            Self::D3 => (1, 1),
        }
    }
}

/// The direction a movement key selects, or none for an unrecognized key.
pub fn key_to_dir(c: char) -> (d: Option<Dir8>)
    ensures
        d == key_dir(c),
{
    match c {
        'q' | 'Q' => Some(Dir8::D7),
        'w' | 'W' => Some(Dir8::D8),
        'e' | 'E' => Some(Dir8::D9),
        'a' | 'A' => Some(Dir8::D4),
        'd' | 'D' => Some(Dir8::D6),
        'z' | 'Z' => Some(Dir8::D1),
        'x' | 'X' => Some(Dir8::D2),
        'c' | 'C' => Some(Dir8::D3),
        _ => None,
    }
}

} // verus!
