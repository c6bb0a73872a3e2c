//! Attacking with the opponent's board in plain sight.
use vstd::prelude::*;

use crate::board::GameBoard;
use crate::game::computer::AttackStrategy;
use crate::position::Position;
use crate::tile::Tile;

verus! {

/// `target` is the first cell in row-by-row order that holds a ship.
pub open spec fn is_first_ship(cells: Seq<Tile>, target: Position) -> bool {
    &&& target.on_board()
    &&& cells[target.index()] is Ship
    &&& forall|i: int| 0 <= i < target.index() ==> !((#[trigger] cells[i]) is Ship)
}

/// Reads the opponent's board and attacks the first ship cell it finds.
/// It never misses.
pub struct Hacker;

impl AttackStrategy for Hacker {
    open spec fn well_formed(&self) -> bool {
        true
    }

    fn reset(&mut self) {
    }

    /// The first cell in row-by-row order that holds a ship.
    fn calculate_best_attack(&mut self, enemy_board: &GameBoard) -> (target: Position)
        ensures
            is_first_ship(enemy_board@, target),
    {
        let mut i: usize = 0;
        while i < 100
            invariant
                i <= 100,
                forall|j: int| 0 <= j < i ==> !((#[trigger] enemy_board@[j]) is Ship),
            decreases 100 - i,
        {
            let position = Position::new((i / 10) as i8, (i % 10) as i8);
            match enemy_board.get_tile_at_position(position) {
                Tile::Ship(_) => {
                    return position;
                },
                _ => {},
            }
            i += 1;
        }
        assert(enemy_board.all_sunk());
        Position::new(0, 0)
    }
}

} // verus!
