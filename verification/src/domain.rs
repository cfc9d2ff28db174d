//! Plain board-coordinate types.

use vstd::prelude::*;

verus! {

/// A cell coordinate on the board: `x` is the column, `y` is the row.
#[derive(Clone, Copy, Debug, PartialEq, Eq, Structural)]
pub struct Position {
    x: usize,
    y: usize,
}

/// A single board tile, identified by its coordinates.
pub struct Tile {
    pub coordinates: Position,
}

impl Position {
    /// The column of this coordinate.
    pub closed spec fn spec_x(&self) -> usize {
        self.x
    }

    /// The row of this coordinate.
    pub closed spec fn spec_y(&self) -> usize {
        self.y
    }

    pub fn new(x: usize, y: usize) -> (r: Self)
        ensures
            r.spec_x() == x,
            r.spec_y() == y,
    {
        Position { x, y }
    }

    /// The column of this coordinate.
    pub fn x(&self) -> (r: usize)
        ensures
            r == self.spec_x(),
    {
        self.x
    }

    /// The row of this coordinate.
    pub fn y(&self) -> (r: usize)
        ensures
            r == self.spec_y(),
    {
        self.y
    }
}

} // verus!
