//! The rules: where a ship may be placed, and what an attack does.
use vstd::prelude::*;

use crate::board::{grid_cells, is_open, is_ship, is_tile, no_ship, Board, GameBoard};
use crate::position::Position;
use crate::ship::{Ship, ShipOrientation, ShipType};
use crate::tally::{count_in, lemma_count_update, lemma_count_zero};
use crate::tile::Tile;
use crate::GRID_SIZE;

pub mod computer;
pub mod player;
pub mod simulation;

verus! {

/// Whether cell (`y`, `x`) belongs to the footprint of a ship of the given
/// type whose first cell is (`row`, `col`): a horizontal ship runs to the
/// right of its first cell, a vertical one downwards.
pub open spec fn in_footprint(ship_type: ShipType, row: int, col: int, y: int, x: int) -> bool {
    match ship_type.orientation() {
        ShipOrientation::Horizontal => y == row && col <= x < col + ship_type.length(),
        ShipOrientation::Vertical => x == col && row <= y < row + ship_type.length(),
    }
}

/// The whole footprint lies on the grid.
pub open spec fn footprint_on_grid(ship_type: ShipType, row: int, col: int) -> bool {
    match ship_type.orientation() {
        ShipOrientation::Horizontal => 0 <= row < 10 && 0 <= col && col + ship_type.length() <= 10,
        ShipOrientation::Vertical => 0 <= col < 10 && 0 <= row && row + ship_type.length() <= 10,
    }
}

/// Every cell of the footprint is `Unknown`.
pub open spec fn footprint_clear(
    cells: Seq<Tile>,
    ship_type: ShipType,
    row: int,
    col: int,
) -> bool {
    forall|i: int|
        0 <= i < 100 && in_footprint(ship_type, row, col, i / 10, i % 10) ==> #[trigger] cells[i]
            is Unknown
}

/// The placement is accepted: the footprint lies on the grid, and it is clear
/// unless `render` waives that.
pub open spec fn can_place(
    cells: Seq<Tile>,
    ship_type: ShipType,
    row: int,
    col: int,
    render: bool,
) -> bool {
    footprint_on_grid(ship_type, row, col) && (render || footprint_clear(
        cells,
        ship_type,
        row,
        col,
    ))
}

/// The cells with the ship written over its footprint.
pub open spec fn with_ship(cells: Seq<Tile>, ship_type: ShipType, row: int, col: int) -> Seq<Tile> {
    Seq::new(
        100,
        |i: int|
            if in_footprint(ship_type, row, col, i / 10, i % 10) {
                Tile::Ship(ship_type)
            } else {
                cells[i]
            },
    )
}

/// Tries to place `ship` with its first cell at (`row`, `col`).
///
/// The placement is accepted exactly when the footprint lies on the grid and,
/// unless `render` is set, every cell of it is `Unknown`.  Then the ship's
/// tile is written over the footprint and nothing else changes.  A refused
/// placement returns the grid as it was given.
///
/// `render` is for drawing a ship over occupied cells while the player moves
/// it about; a placement that is kept passes `false`.
pub fn place_ship_on_board(
    board: Board,
    ship: &Ship,
    row: usize,
    col: usize,
    render: bool,
) -> (result: (bool, Board))
    ensures
        result.0 == can_place(grid_cells(board), ship.ship_type, row as int, col as int, render),
        result.0 ==> grid_cells(result.1) == with_ship(
            grid_cells(board),
            ship.ship_type,
            row as int,
            col as int,
        ),
        !result.0 ==> result.1 == board,
{
    let mut grid = board;
    let ship_type = ship.ship_type;
    let length = ship_type.get_ship_length() as usize;
    let grid_size = GRID_SIZE as usize;
    let ghost cells = grid_cells(board);
    match ship_type.get_orientation() {
        ShipOrientation::Horizontal => {
            if row < grid_size && col < grid_size && col + length <= grid_size {
                let mut valid = true;
                let mut i = col;
                while i < col + length
                    invariant
                        row < 10,
                        col <= i <= col + length <= 10,
                        grid == board,
                        cells == grid_cells(board),
                        valid == (render || forall|x: int|
                            col <= x < i ==> #[trigger] cells[10 * row + x] is Unknown),
                    decreases col + length - i,
                {
                    assert(cells[10 * row + i] == grid[row as int][i as int]);
                    if grid[row][i] != Tile::Unknown && !render {
                        valid = false;
                    }
                    i += 1;
                }
                proof {
                    if !render {
                        if valid {
                            assert forall|k: int|
                                0 <= k < 100 && in_footprint(
                                    ship_type,
                                    row as int,
                                    col as int,
                                    k / 10,
                                    k % 10,
                                ) implies #[trigger] cells[k] is Unknown by {
                                assert(k == 10 * row + k % 10);
                            }
                        } else {
                            let x = choose|x: int|
                                col <= x < col + length && !(#[trigger] cells[10 * row + x]
                                    is Unknown);
                            assert(in_footprint(
                                ship_type,
                                row as int,
                                col as int,
                                (10 * row + x) / 10,
                                (10 * row + x) % 10,
                            ));
                        }
                    }
                }
                if valid {
                    let mut i = col;
                    while i < col + length
                        invariant
                            row < 10,
                            col <= i <= col + length <= 10,
                            length == ship_type.length(),
                            ship_type.orientation() == ShipOrientation::Horizontal,
                            cells == grid_cells(board),
                            forall|k: int|
                                0 <= k < 100 ==> #[trigger] grid_cells(grid)[k] == if in_footprint(
                                    ship_type,
                                    row as int,
                                    col as int,
                                    k / 10,
                                    k % 10,
                                ) && k % 10 < i {
                                    Tile::Ship(ship_type)
                                } else {
                                    cells[k]
                                },
                        decreases col + length - i,
                    {
                        let ghost before = grid_cells(grid);
                        grid[row][i] = Tile::Ship(ship_type);
                        assert(grid_cells(grid) =~= before.update(
                            10 * row + i,
                            Tile::Ship(ship_type),
                        ));
                        i += 1;
                    }
                    assert(grid_cells(grid) =~= with_ship(
                        cells,
                        ship_type,
                        row as int,
                        col as int,
                    ));
                    (true, grid)
                } else {
                    (false, grid)
                }
            } else {
                (false, grid)
            }
        },
        ShipOrientation::Vertical => {
            if row < grid_size && col < grid_size && row + length <= grid_size {
                let mut valid = true;
                let mut i = row;
                while i < row + length
                    invariant
                        col < 10,
                        row <= i <= row + length <= 10,
                        grid == board,
                        cells == grid_cells(board),
                        valid == (render || forall|y: int|
                            row <= y < i ==> #[trigger] cells[10 * y + col] is Unknown),
                    decreases row + length - i,
                {
                    assert(cells[10 * i + col] == grid[i as int][col as int]);
                    if grid[i][col] != Tile::Unknown && !render {
                        valid = false;
                    }
                    i += 1;
                }
                proof {
                    if !render {
                        if valid {
                            assert forall|k: int|
                                0 <= k < 100 && in_footprint(
                                    ship_type,
                                    row as int,
                                    col as int,
                                    k / 10,
                                    k % 10,
                                ) implies #[trigger] cells[k] is Unknown by {
                                assert(k == 10 * (k / 10) + col);
                            }
                        } else {
                            let y = choose|y: int|
                                row <= y < row + length && !(#[trigger] cells[10 * y + col]
                                    is Unknown);
                            assert(in_footprint(
                                ship_type,
                                row as int,
                                col as int,
                                (10 * y + col) / 10,
                                (10 * y + col) % 10,
                            ));
                        }
                    }
                }
                if valid {
                    let mut i = row;
                    while i < row + length
                        invariant
                            col < 10,
                            row <= i <= row + length <= 10,
                            length == ship_type.length(),
                            ship_type.orientation() == ShipOrientation::Vertical,
                            cells == grid_cells(board),
                            forall|k: int|
                                0 <= k < 100 ==> #[trigger] grid_cells(grid)[k] == if in_footprint(
                                    ship_type,
                                    row as int,
                                    col as int,
                                    k / 10,
                                    k % 10,
                                ) && k / 10 < i {
                                    Tile::Ship(ship_type)
                                } else {
                                    cells[k]
                                },
                        decreases row + length - i,
                    {
                        let ghost before = grid_cells(grid);
                        grid[i][col] = Tile::Ship(ship_type);
                        assert(grid_cells(grid) =~= before.update(
                            10 * i + col,
                            Tile::Ship(ship_type),
                        ));
                        i += 1;
                    }
                    assert(grid_cells(grid) =~= with_ship(
                        cells,
                        ship_type,
                        row as int,
                        col as int,
                    ));
                    (true, grid)
                } else {
                    (false, grid)
                }
            } else {
                (false, grid)
            }
        },
    }
}

/// What one attack yielded.
#[derive(Debug, PartialEq, Eq, Clone, Copy, Structural)]
pub struct AttackFeedback {
    /// The tile that the attack found at its position.
    pub tile_at_attack: Tile,
    /// Whether the cell could be attacked.  The other flags of an attack that
    /// was not valid are all `false`.
    pub valid_attack: bool,
    /// Whether the attack took the last cell of a ship.
    pub sunk_a_ship: bool,
    /// Whether the attack found a ship.
    pub hit_a_ship: bool,
    /// Whether no ship is left once the attack is recorded.
    pub won_the_game: bool,
}

impl AttackFeedback {
    pub fn new(
        tile_at_attack: Tile,
        valid_attack: bool,
        sunk_a_ship: bool,
        hit_a_ship: bool,
        won_the_game: bool,
    ) -> (feedback: Self)
        ensures
            feedback == (AttackFeedback {
                tile_at_attack,
                valid_attack,
                sunk_a_ship,
                hit_a_ship,
                won_the_game,
            }),
    {
        Self { tile_at_attack, valid_attack, sunk_a_ship, hit_a_ship, won_the_game }
    }
}

/// The cells once an attack at `position` is recorded: an open cell becomes
/// `Hit` if it held a ship and `Miss` if it was water; an attack on any other
/// cell changes nothing.
pub open spec fn cells_after_attack(cells: Seq<Tile>, position: Position) -> Seq<Tile> {
    let tile = cells[position.index()];
    if tile.open() {
        cells.update(position.index(), tile.attacked())
    } else {
        cells
    }
}

/// The feedback of an attack at `position`.
///
/// The attack is valid when the cell is open.  A valid attack hits when the
/// cell holds a ship, sinks when that cell is the only one of the board with
/// its tile, and wins when no ship is left once it is recorded.
pub open spec fn attack_outcome(cells: Seq<Tile>, position: Position) -> AttackFeedback {
    let tile = cells[position.index()];
    if tile.open() {
        AttackFeedback {
            tile_at_attack: tile,
            valid_attack: true,
            sunk_a_ship: tile is Ship && count_in(cells, is_tile(tile)) == 1,
            hit_a_ship: tile is Ship,
            won_the_game: no_ship(cells_after_attack(cells, position)),
        }
    } else {
        AttackFeedback {
            tile_at_attack: tile,
            valid_attack: false,
            sunk_a_ship: false,
            hit_a_ship: false,
            won_the_game: false,
        }
    }
}

/// Judges an attack at `attack_position`, which must lie on the board,
/// without recording it; see [`attack_outcome`].  Only a ship can be sunk,
/// only a ship can be hit, and only a valid attack hits or wins.
pub fn process_attack(defender_board: GameBoard, attack_position: Position) -> (feedback:
    AttackFeedback)
    requires
        attack_position.on_board(),
    ensures
        feedback == attack_outcome(defender_board@, attack_position),
        feedback.sunk_a_ship ==> feedback.hit_a_ship,
        feedback.hit_a_ship ==> feedback.valid_attack && feedback.tile_at_attack is Ship,
        feedback.won_the_game ==> feedback.valid_attack,
{
    let tile_at_attack_position = defender_board.get_tile_at_position(attack_position);

    match tile_at_attack_position {
        Tile::Unknown => {
            let mut after = defender_board;
            after.place_marker_on_board(attack_position, Tile::Miss);
            let attack_won_the_game = after.check_if_hit_won_the_game();
            AttackFeedback::new(tile_at_attack_position, true, false, false, attack_won_the_game)
        },
        Tile::Ship(_) => {
            let attack_sunk_a_ship = defender_board.check_if_hit_is_a_sink(
                tile_at_attack_position,
            );
            proof {
                lemma_count_zero(defender_board@, is_tile(tile_at_attack_position));
                assert(is_tile(tile_at_attack_position)(defender_board@[attack_position.index()]));
            }
            let mut after = defender_board;
            after.place_marker_on_board(attack_position, Tile::Hit);
            let attack_won_the_game = after.check_if_hit_won_the_game();
            AttackFeedback::new(
                tile_at_attack_position,
                true,
                attack_sunk_a_ship,
                true,
                attack_won_the_game,
            )
        },
        _ => AttackFeedback::new(tile_at_attack_position, false, false, false, false),
    }
}

/// Records on `board` the attack that `feedback` reports for `position`: a
/// valid attack writes `Hit` over a ship and `Miss` over water, one that was
/// not valid writes nothing.
pub fn record_attack(board: &mut GameBoard, position: Position, feedback: &AttackFeedback)
    requires
        position.on_board(),
    ensures
        feedback.valid_attack ==> final(board)@ == old(board)@.update(
            position.index(),
            feedback.tile_at_attack.attacked(),
        ),
        !feedback.valid_attack ==> *final(board) == *old(board),
        *feedback == attack_outcome(old(board)@, position) ==> final(board)@ == cells_after_attack(
            old(board)@,
            position,
        ),
{
    if feedback.valid_attack {
        match feedback.tile_at_attack {
            Tile::Ship(_) => board.place_marker_on_board(position, Tile::Hit),
            _ => board.place_marker_on_board(position, Tile::Miss),
        }
    }
}

/// Judges an attack at `position`, which must lie on the board, and records
/// it in the same step.  A second attack on the same cell is then not valid.
pub fn resolve_attack(board: &mut GameBoard, position: Position) -> (feedback: AttackFeedback)
    requires
        position.on_board(),
    ensures
        feedback == attack_outcome(old(board)@, position),
        final(board)@ == cells_after_attack(old(board)@, position),
        !attack_outcome(final(board)@, position).valid_attack,
{
    let feedback = process_attack(*board, position);
    record_attack(board, position, &feedback);
    feedback
}

/// Attacking a cell twice: whatever the first attack did, the second one is
/// not valid, reports neither a hit nor a sunk ship nor a win, and leaves the
/// board as the first attack left it.
pub proof fn lemma_second_attack_is_refused(cells: Seq<Tile>, position: Position)
    requires
        cells.len() == 100,
        position.on_board(),
    ensures
        ({
            let after = cells_after_attack(cells, position);
            let again = attack_outcome(after, position);
            &&& !again.valid_attack
            &&& !again.hit_a_ship
            &&& !again.sunk_a_ship
            &&& !again.won_the_game
            &&& cells_after_attack(after, position) == after
        }),
{
}

/// A valid attack changes the attacked cell and no other; it takes one cell
/// from those that may still be attacked, and one ship cell if it hits.
pub proof fn lemma_attack_counts(cells: Seq<Tile>, position: Position)
    requires
        cells.len() == 100,
        position.on_board(),
        cells[position.index()].open(),
    ensures
        ({
            let after = cells_after_attack(cells, position);
            let feedback = attack_outcome(cells, position);
            &&& after.len() == 100
            &&& forall|i: int| 0 <= i < 100 && i != position.index() ==> after[i] == cells[i]
            &&& count_in(after, is_open()) + 1 == count_in(cells, is_open())
            &&& count_in(after, is_ship()) + (if feedback.hit_a_ship {
                1nat
            } else {
                0nat
            }) == count_in(cells, is_ship())
        }),
{
    let tile = cells[position.index()];
    lemma_count_update(cells, is_open(), position.index(), tile.attacked());
    lemma_count_update(cells, is_ship(), position.index(), tile.attacked());
}

/// An attack on a ship cell sinks exactly when no other cell of the board
/// holds the same tile: when it finds the last cell of its ship.
pub proof fn lemma_sunk_is_last_cell(cells: Seq<Tile>, position: Position)
    requires
        cells.len() == 100,
        position.on_board(),
        cells[position.index()] is Ship,
    ensures
        ({
            let tile = cells[position.index()];
            attack_outcome(cells, position).sunk_a_ship <==> (forall|i: int|
                0 <= i < 100 && i != position.index() ==> #[trigger] cells[i] != tile)
        }),
{
    let tile = cells[position.index()];
    let p = is_tile(tile);
    let others = cells.update(position.index(), Tile::Hit);
    lemma_count_update(cells, p, position.index(), Tile::Hit);
    lemma_count_zero(others, p);
    if attack_outcome(cells, position).sunk_a_ship {
        assert forall|i: int| 0 <= i < 100 && i != position.index() implies #[trigger] cells[i]
            != tile by {
            assert(!p(others[i]));
        }
    }
    if forall|i: int| 0 <= i < 100 && i != position.index() ==> #[trigger] cells[i] != tile {
        assert forall|i: int| 0 <= i < others.len() implies !p(#[trigger] others[i]) by {
            if i != position.index() {
                assert(cells[i] != tile);
            }
        }
    }
}

} // verus!
