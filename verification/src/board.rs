//! The ten by ten board of one player.
use vstd::prelude::*;

use crate::position::Position;
use crate::tally::{count_in, lemma_count_prefix, lemma_count_step, lemma_count_zero};
use crate::tile::Tile;

verus! {

/// The grid as it is stored: ten rows of ten tiles.
pub type Board = [[Tile; 10]; 10];

/// The cells of a grid read row by row: cell (`y`, `x`) has index
/// `10 * y + x`.
pub open spec fn grid_cells(board: Board) -> Seq<Tile> {
    Seq::new(100, |i: int| board[i / 10][i % 10])
}

/// The predicate "is this very tile".
pub open spec fn is_tile(tile: Tile) -> spec_fn(Tile) -> bool {
    |t: Tile| t == tile
}

/// The predicate "holds a ship that has not been hit".
pub open spec fn is_ship() -> spec_fn(Tile) -> bool {
    |t: Tile| t is Ship
}

/// The predicate "may still be attacked".
pub open spec fn is_open() -> spec_fn(Tile) -> bool {
    |t: Tile| t.open()
}

/// The predicate "is not plain water".
pub open spec fn is_occupied() -> spec_fn(Tile) -> bool {
    |t: Tile| t.occupied()
}

/// No cell of the sequence holds a ship.
pub open spec fn no_ship(cells: Seq<Tile>) -> bool {
    forall|i: int| 0 <= i < cells.len() ==> !(#[trigger] cells[i] is Ship)
}

/// The board of one player.  Its view is the sequence of its hundred cells,
/// read row by row.
#[derive(Debug, PartialEq, Eq, Clone, Copy)]
pub struct GameBoard {
    pub board: Board,
}

impl View for GameBoard {
    type V = Seq<Tile>;

    open spec fn view(&self) -> Seq<Tile> {
        grid_cells(self.board)
    }
}

impl GameBoard {
    /// The tile at a position of the board.
    pub open spec fn tile_at(self, position: Position) -> Tile {
        self@[position.index()]
    }

    /// Number of cells that hold exactly `tile`.
    pub open spec fn count_of(self, tile: Tile) -> nat {
        count_in(self@, is_tile(tile))
    }

    /// Number of ship cells that have not been hit.
    pub open spec fn ships_left(self) -> nat {
        count_in(self@, is_ship())
    }

    /// Number of cells that may still be attacked.
    pub open spec fn open_cells(self) -> nat {
        count_in(self@, is_open())
    }

    /// Some cell may still be attacked.
    pub open spec fn has_open_cell(self) -> bool {
        exists|i: int| 0 <= i < 100 && (#[trigger] self@[i]).open()
    }

    /// No ship cell is left on the board.
    pub open spec fn all_sunk(self) -> bool {
        no_ship(self@)
    }

    /// A board of water: every cell is `Unknown`.
    pub fn new() -> (board: Self)
        ensures
            board@ == Seq::new(100, |i: int| Tile::Unknown),
    {
        let board = Self { board: [[Tile::Unknown; 10]; 10] };
        assert(board@ =~= Seq::new(100, |i: int| Tile::Unknown));
        board
    }

    /// Whether a hit on a cell that holds `tile_at_attack_position` takes the
    /// last cell with that tile: true exactly when at most one cell of the
    /// board holds it.
    pub fn check_if_hit_is_a_sink(self, tile_at_attack_position: Tile) -> (sunk: bool)
        ensures
            sunk == (self.count_of(tile_at_attack_position) <= 1),
    {
        let ghost p = is_tile(tile_at_attack_position);
        let mut count_of_tile_type_on_board: usize = 0;
        let mut i: usize = 0;
        while i < 100
            invariant
                i <= 100,
                self@.len() == 100,
                p == is_tile(tile_at_attack_position),
                count_of_tile_type_on_board == count_in(self@.take(i as int), p),
                count_of_tile_type_on_board <= 1,
            decreases 100 - i,
        {
            let tile = self.board[i / 10][i % 10];
            proof {
                lemma_count_step(self@, p, i as int);
            }
            if tile == tile_at_attack_position {
                count_of_tile_type_on_board += 1;
            }
            if count_of_tile_type_on_board > 1 {
                proof {
                    lemma_count_prefix(self@, p, i + 1);
                }
                return false;
            }
            i += 1;
        }
        assert(self@.take(100) =~= self@);
        true
    }

    /// Whether every ship of the board is sunk: true exactly when no cell
    /// holds a ship.
    pub fn check_if_hit_won_the_game(&self) -> (won: bool)
        ensures
            won == self.all_sunk(),
            won == (self.ships_left() == 0),
    {
        let mut i: usize = 0;
        while i < 100
            invariant
                i <= 100,
                self@.len() == 100,
                forall|j: int| 0 <= j < i ==> !(#[trigger] self@[j] is Ship),
            decreases 100 - i,
        {
            match self.board[i / 10][i % 10] {
                Tile::Ship(_) => {
                    proof {
                        lemma_count_zero(self@, is_ship());
                        assert(is_ship()(self@[i as int]));
                    }
                    return false;
                },
                _ => {},
            }
            i += 1;
        }
        proof {
            lemma_count_zero(self@, is_ship());
        }
        true
    }

    /// The board that stores the given grid.
    pub fn set(game_board: Board) -> (board: Self)
        ensures
            board.board == game_board,
            board@ == grid_cells(game_board),
    {
        Self { board: game_board }
    }

    /// Writes `tile` at `position`.  A position off the board leaves the
    /// board as it is.
    pub fn place_marker_on_board(&mut self, position: Position, tile: Tile)
        ensures
            position.on_board() ==> final(self)@ == old(self)@.update(position.index(), tile),
            !position.on_board() ==> *final(self) == *old(self),
    {
        if position.is_on_board() {
            self.board[position.get_y() as usize][position.get_x() as usize] = tile;
            assert(self@ =~= old(self)@.update(position.index(), tile));
        }
    }

    /// The tile at `position`, which must lie on the board.
    pub fn get_tile_at_position(&self, position: Position) -> (tile: Tile)
        requires
            position.on_board(),
        ensures
            tile == self.tile_at(position),
    {
        self.board[position.get_y() as usize][position.get_x() as usize]
    }
}

} // verus!
