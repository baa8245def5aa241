//! Positions on the board.

use vstd::prelude::*;

verus! {

/// Number of rows, and of columns, of the board.
pub const SIDE: usize = 8;

/// Smallest row or column index that is not part of the wall.
pub const INNER_MIN: usize = 1;

/// Largest row or column index that is not part of the wall.
pub const INNER_MAX: usize = 6;

/// A cell of the board, by row and column, both counted from zero.
#[derive(Debug, Clone, Copy, PartialEq, Eq, Structural)]
pub struct Loc {
    pub row: usize,
    pub col: usize,
}

impl Loc {
    /// The cell lies inside the wall: row and column are both in `1..=6`.
    pub open spec fn in_interior(self) -> bool {
        &&& INNER_MIN <= self.row <= INNER_MAX
        &&& INNER_MIN <= self.col <= INNER_MAX
    }

    /// The cell lies on the board: row and column are both below `8`.
    pub open spec fn on_board(self) -> bool {
        self.row < SIDE && self.col < SIDE
    }

    /// The cell belongs to the outer ring of the board.
    pub open spec fn on_ring(self) -> bool {
        self.row == 0 || self.row == SIDE - 1 || self.col == 0 || self.col == SIDE - 1
    }

    /// Tells whether the cell lies inside the wall.
    pub fn is_interior(&self) -> (inside: bool)
        ensures
            inside == self.in_interior(),
    {
        INNER_MIN <= self.row && self.row <= INNER_MAX && INNER_MIN <= self.col && self.col
            <= INNER_MAX
    }

    /// Tells whether the cell belongs to the outer ring of the board.
    pub fn is_ring(&self) -> (ring: bool)
        ensures
            ring == self.on_ring(),
    {
        self.row == 0 || self.row == SIDE - 1 || self.col == 0 || self.col == SIDE - 1
    }
}

} // verus!
