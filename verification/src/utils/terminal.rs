//! Moving a selector over the grid.
use vstd::prelude::*;

use crate::position::Position;
use crate::GRID_ARRAY_SIZE;

verus! {

/// One step of the selector.
#[derive(Debug, PartialEq, Eq, Clone, Copy, Structural)]
pub enum Movement {
    Up,
    Down,
    Left,
    Right,
}

/// Where a step takes the selector.
///
/// The selector moves by one cell and wraps round at the edge.  `cycle_offset`
/// is the number of cells that the moved thing extends beyond the selector in
/// the direction of the axis moved along (a ship's length minus one; 0 for a
/// single cell): the far end wraps when it would leave the grid, so that the
/// whole of it stays on the grid.
pub open spec fn moved(
    current_pos: Position,
    movement_direction: Movement,
    cycle_offset: i8,
) -> Position {
    let y = current_pos.y;
    let x = current_pos.x;
    match movement_direction {
        Movement::Up => if y > 0 {
            Position { y: (y - 1) as i8, x }
        } else {
            Position { y: (9 - cycle_offset) as i8, x }
        },
        Movement::Down => if y + cycle_offset < 9 {
            Position { y: (y + 1) as i8, x }
        } else {
            Position { y: 0, x }
        },
        Movement::Left => if x > 0 {
            Position { y, x: (x - 1) as i8 }
        } else {
            Position { y, x: (9 - cycle_offset) as i8 }
        },
        Movement::Right => if x + cycle_offset < 9 {
            Position { y, x: (x + 1) as i8 }
        } else {
            Position { y, x: 0 }
        },
    }
}

/// Moves the selector one step, see [`moved`].
///
/// The sums that the step forms must fit in an `i8`.  They do for every
/// position on the board and every offset from 0 to 9.
///
/// When the selector is on the board and the thing it moves reaches no
/// further than the last row or column, the same holds after the step.
pub fn move_selector_position(
    current_pos: Position,
    movement_direction: Movement,
    cycle_offset: i8,
) -> (new_pos: Position)
    requires
        cycle_offset >= -118,
        -128 <= current_pos.y + cycle_offset <= 127,
        -128 <= current_pos.x + cycle_offset <= 127,
    ensures
        new_pos == moved(current_pos, movement_direction, cycle_offset),
        current_pos.on_board() && 0 <= cycle_offset <= 9 && (movement_direction is Up
            || movement_direction is Down) && current_pos.y + cycle_offset <= 9
            ==> new_pos.on_board() && new_pos.y + cycle_offset <= 9,
        current_pos.on_board() && 0 <= cycle_offset <= 9 && (movement_direction is Left
            || movement_direction is Right) && current_pos.x + cycle_offset <= 9
            ==> new_pos.on_board() && new_pos.x + cycle_offset <= 9,
{
    let mut current_pos = current_pos;
    let y = current_pos.get_y();
    let x = current_pos.get_x();

    match movement_direction {
        Movement::Up => if y > 0 {
            current_pos.set_y(y - 1)
        } else {
            current_pos.set_y(GRID_ARRAY_SIZE - cycle_offset)
        },
        Movement::Down => if y + cycle_offset < GRID_ARRAY_SIZE {
            current_pos.set_y(y + 1)
        } else {
            current_pos.set_y(0)
        },
        Movement::Left => if x > 0 {
            current_pos.set_x(x - 1)
        } else {
            current_pos.set_x(GRID_ARRAY_SIZE - cycle_offset)
        },
        Movement::Right => if x + cycle_offset < GRID_ARRAY_SIZE {
            current_pos.set_x(x + 1)
        } else {
            current_pos.set_x(0)
        },
    }

    current_pos
}

} // verus!
