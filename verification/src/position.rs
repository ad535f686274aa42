//! Places on screen and in the text.

use vstd::prelude::*;

verus! {

/// A place on screen: a row and a display column.
#[derive(Clone, Copy, Debug, PartialEq, Eq, Structural)]
pub struct Position {
    pub row: usize,
    pub col: usize,
}

impl Default for Position {
    fn default() -> (position: Position)
        ensures
            position == (Position { row: 0, col: 0 }),
    {
        Position { row: 0, col: 0 }
    }
}

/// `a - b`, or zero where `b` is the greater.
pub open spec fn minus_or_zero(a: int, b: int) -> int {
    if a >= b {
        a - b
    } else {
        0
    }
}

impl Position {
    /// How far this place is from `other`, down and to the right; zero in a direction
    /// in which it is not.
    pub fn saturating_sub(&self, other: &Self) -> (difference: Position)
        ensures
            difference.row == minus_or_zero(self.row as int, other.row as int),
            difference.col == minus_or_zero(self.col as int, other.col as int),
    {
        Position {
            row: self.row.saturating_sub(other.row),
            col: self.col.saturating_sub(other.col),
        }
    }
}

/// A place in the text: a row and a grapheme of that row.
#[derive(Clone, Copy, Debug, PartialEq, Eq, Structural)]
pub struct Location {
    pub grapheme_index: usize,
    pub row: usize,
}

impl Default for Location {
    fn default() -> (location: Location)
        ensures
            location == (Location { grapheme_index: 0, row: 0 }),
    {
        Location { grapheme_index: 0, row: 0 }
    }
}

} // verus!
