//! Attacking by chance.
use vstd::prelude::*;

use crate::board::GameBoard;
use crate::game::computer::AttackStrategy;
use crate::position::Position;

verus! {

/// Attacks a cell drawn by chance among those that may still be attacked.
/// It remembers nothing.
pub struct RandomAttackStrategy;

impl AttackStrategy for RandomAttackStrategy {
    open spec fn well_formed(&self) -> bool {
        true
    }

    fn reset(&mut self) {
    }

    fn calculate_best_attack(&mut self, enemy_board: &GameBoard) -> (target: Position) {
        proof {
            let i = choose|i: int| 0 <= i < 100 && (#[trigger] enemy_board@[i]) is Ship;
            assert(enemy_board@[i].open());
        }
        self.get_random_position(enemy_board)
    }
}

} // verus!
