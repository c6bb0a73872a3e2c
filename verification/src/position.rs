//! Coordinates on the grid.
use vstd::prelude::*;

verus! {

/// A row (`y`) and a column (`x`).  Both lie in 0..=9 for a cell of the grid;
/// other values name a place off the board.
#[derive(Clone, Copy, Debug, PartialEq, Eq, Structural)]
pub struct Position {
    pub y: i8,
    pub x: i8,
}

impl Position {
    /// Both coordinates lie on the grid.
    pub open spec fn on_board(self) -> bool {
        0 <= self.y <= 9 && 0 <= self.x <= 9
    }

    /// Index of the cell when the grid is read row by row.
    pub open spec fn index(self) -> int {
        10 * self.y + self.x
    }

    /// The cell with the given row-by-row index.
    pub open spec fn at_index(i: int) -> Position {
        Position { y: (i / 10) as i8, x: (i % 10) as i8 }
    }

    pub fn new(y: i8, x: i8) -> (position: Position)
        ensures
            position.y == y,
            position.x == x,
    {
        Position { y, x }
    }

    pub fn set_y(&mut self, y: i8)
        ensures
            final(self).y == y,
            final(self).x == old(self).x,
    {
        self.y = y;
    }

    pub fn set_x(&mut self, x: i8)
        ensures
            final(self).x == x,
            final(self).y == old(self).y,
    {
        self.x = x;
    }

    pub fn get_y(&self) -> (y: i8)
        ensures
            y == self.y,
    {
        self.y
    }

    pub fn get_x(&self) -> (x: i8)
        ensures
            x == self.x,
    {
        self.x
    }

    /// Whether the position names a cell of the grid.  It does not exactly
    /// when a coordinate is negative or greater than 9.
    pub fn is_on_board(&self) -> (on_board: bool)
        ensures
            on_board == self.on_board(),
            !on_board <==> (self.y < 0 || self.y > 9 || self.x < 0 || self.x > 9),
    {
        self.y >= 0 && self.y <= 9 && self.x >= 0 && self.x <= 9
    }
}

} // verus!
