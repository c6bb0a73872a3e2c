//! The computer opponent: a board and a strategy that picks its attacks.
use vstd::prelude::*;

use crate::board::GameBoard;
use crate::fleet::is_fleet;
use crate::game::computer::computer_setup::computer_setup;
use crate::position::Position;
use crate::tile::Tile;
use crate::utils::{random_index, random_number};
use crate::GRID_SIZE;

pub mod computer_setup;
pub mod computers;

verus! {

/// The four cells next to `position`, in the order in which the strategies
/// look at them: above, below, left, right.  Some may lie off the board.
pub open spec fn neighbours(position: Position) -> Seq<Position> {
    seq![
        Position { y: (position.y - 1) as i8, x: position.x },
        Position { y: (position.y + 1) as i8, x: position.x },
        Position { y: position.y, x: (position.x - 1) as i8 },
        Position { y: position.y, x: (position.x + 1) as i8 },
    ]
}

/// The position is a cell of the board that may still be attacked.
pub open spec fn usable(cells: Seq<Tile>, position: Position) -> bool {
    position.on_board() && cells[position.index()].open()
}

/// Every cell of the board that may still be attacked, in row-by-row order.
pub fn open_positions(board: &GameBoard) -> (open: Vec<Position>)
    ensures
        forall|k: int| 0 <= k < open.len() ==> usable(board@, #[trigger] open[k]),
        forall|position: Position| usable(board@, position) ==> #[trigger] open@.contains(position),
        forall|j: int, k: int|
            0 <= j < k < open.len() ==> (#[trigger] open[j]).index() < (#[trigger] open[k]).index(),
{
    let mut open: Vec<Position> = Vec::new();
    let mut i: usize = 0;
    while i < 100
        invariant
            i <= 100,
            forall|k: int|
                0 <= k < open.len() ==> usable(board@, #[trigger] open[k]) && open[k].index() < i,
            forall|position: Position|
                usable(board@, position) && position.index() < i ==> #[trigger] open@.contains(
                    position,
                ),
            forall|j: int, k: int|
                0 <= j < k < open.len() ==> (#[trigger] open[j]).index() < (
                #[trigger] open[k]).index(),
        decreases 100 - i,
    {
        let position = Position::new((i / 10) as i8, (i % 10) as i8);
        let ghost before = open@;
        if board.get_tile_at_position(position).is_open() {
            open.push(position);
            assert(open@[before.len() as int] == position);
        }
        assert forall|other: Position|
            usable(board@, other) && other.index() < i + 1 implies #[trigger] open@.contains(
            other,
        ) by {
            if other.index() < i {
                assert(before.contains(other));
                let k = choose|k: int| 0 <= k < before.len() && before[k] == other;
                assert(open@[k] == other);
            } else {
                assert(other == position);
                assert(open@[before.len() as int] == other);
            }
        }
        i += 1;
    }
    open
}

/// The cell that two numbers stand for: the first gives the row, the second
/// the column, each by its remainder on division by ten.
pub open spec fn position_of_draws(first: usize, second: usize) -> Position {
    Position { y: (first % 10) as i8, x: (second % 10) as i8 }
}

/// The cell of the board that two numbers stand for, see
/// [`position_of_draws`].  Every pair of numbers gives a cell of the board,
/// and every cell of the board is given by its own row and column.
pub fn position_from_draws(first: usize, second: usize) -> (position: Position)
    ensures
        position == position_of_draws(first, second),
        position.on_board(),
        first < 10 && second < 10 ==> position.y == first && position.x == second,
{
    let y = first % (GRID_SIZE as usize);
    let x = second % (GRID_SIZE as usize);

    assert(first < 10 ==> first % 10 == first);
    assert(second < 10 ==> second % 10 == second);
    Position::new(y as i8, x as i8)
}

/// A policy that picks the next cell to attack on the opponent's board.
pub trait AttackStrategy {
    /// What the strategy's memory must satisfy.  A new strategy satisfies
    /// it, and every attack it picks keeps it.
    spec fn well_formed(&self) -> bool;

    /// Clears the memory: the strategy is as it was when it was new.  What a
    /// strategy remembers is true of one board only, so this comes before
    /// the first attack on another board.
    fn reset(&mut self)
        ensures
            final(self).well_formed(),
    ;

    /// Picks the next attack.  The game must not be over: the board still
    /// holds a ship.  The target is a cell of the board that may still be
    /// attacked.
    fn calculate_best_attack(&mut self, enemy_board: &GameBoard) -> (target: Position)
        requires
            old(self).well_formed(),
            !enemy_board.all_sunk(),
        ensures
            final(self).well_formed(),
            usable(enemy_board@, target),
    ;

    /// A cell of the board drawn by chance, each with the same probability.
    ///
    /// Two numbers are drawn, and [`position_from_draws`] says which cell
    /// they stand for.  Which cell comes back is a matter of chance: the
    /// contract states what holds of every draw.
    fn generate_random_position(&self) -> (position: Position)
        ensures
            position.on_board(),
    {
        let first = random_number();
        let second = random_number();

        position_from_draws(first, second)
    }

    /// A cell drawn by chance among those that may still be attacked, each
    /// with the same probability.  There must be such a cell.
    ///
    /// One cell of the board is drawn; if it has been attacked already, a
    /// cell is drawn among the open ones.
    fn get_random_position(&mut self, enemy_board: &GameBoard) -> (position: Position) where
        Self: Sized,
        requires
            enemy_board.has_open_cell(),
        ensures
            usable(enemy_board@, position),
            *final(self) == *old(self),
    {
        let position = self.generate_random_position();

        match enemy_board.get_tile_at_position(position) {
            Tile::Unknown | Tile::Ship(_) => position,
            _ => {
                let open = open_positions(enemy_board);
                proof {
                    let i = choose|i: int| 0 <= i < 100 && (#[trigger] enemy_board@[i]).open();
                    let free = Position::at_index(i);
                    assert(usable(enemy_board@, free));
                    assert(open@.contains(free));
                }
                open[random_index(open.len())]
            },
        }
    }

    /// The four cells next to `position`, see [`neighbours`].  The
    /// coordinates of `position` must leave room for a step either way.
    fn get_adjacent_positions(&self, position: Position) -> (adjacent: Vec<Position>)
        requires
            -128 < position.y < 127,
            -128 < position.x < 127,
        ensures
            adjacent@ == neighbours(position),
    {
        let adjacent = vec![
            Position::new(position.get_y() - 1, position.get_x()),
            Position::new(position.get_y() + 1, position.get_x()),
            Position::new(position.get_y(), position.get_x() - 1),
            Position::new(position.get_y(), position.get_x() + 1),
        ];
        assert(adjacent@ =~= neighbours(position));
        adjacent
    }
}

/// A computer player: its own board, and the strategy by which it attacks.
pub struct Computer<S: AttackStrategy> {
    pub computer_board: GameBoard,
    pub attack_strategy: S,
}

impl<S: AttackStrategy> Computer<S> {
    /// A computer with the given strategy and a fleet set up by chance.
    pub fn new(attack_strategy: S) -> (computer: Self)
        ensures
            computer.attack_strategy == attack_strategy,
            is_fleet(computer.computer_board@),
            computer.computer_board.ships_left() == 17,
            computer.computer_board.open_cells() == 100,
    {
        let computer_board = computer_setup();
        Self { computer_board, attack_strategy }
    }

    /// Begins a new game: replaces the board by a new fleet set up by chance
    /// and clears the memory of the strategy.
    pub fn regenerate_computer_board(&mut self)
        ensures
            final(self).attack_strategy.well_formed(),
            is_fleet(final(self).computer_board@),
            final(self).computer_board.ships_left() == 17,
            final(self).computer_board.open_cells() == 100,
    {
        self.computer_board = computer_setup();
        self.attack_strategy.reset();
    }
}

} // verus!
