//! A human player's turn, as far as it decides anything: what a key does to
//! the selector and to the defender's board.  Reading the keys and drawing
//! the boards is left to the caller.
use vstd::prelude::*;

use crate::board::GameBoard;
use crate::display::inputs::Key;
use crate::game::{attack_outcome, cells_after_attack, resolve_attack};
use crate::position::Position;
use crate::tile::Tile;
use crate::utils::terminal::{move_selector_position, moved, Movement};

pub mod player_setup;

verus! {

/// How a player's turn ended.
#[derive(Debug, PartialEq, Eq, Clone, Copy)]
pub struct PlayerTurnResult {
    pub defender_board: GameBoard,
    pub valid_attack: bool,
    pub tile_at_attack: Tile,
    pub sunk_a_ship: bool,
    pub won_the_game: bool,
}

impl PlayerTurnResult {
    pub fn new(
        defender_board: GameBoard,
        valid_attack: bool,
        tile_at_attack: Tile,
        sunk_a_ship: bool,
        won_the_game: bool,
    ) -> (result: PlayerTurnResult)
        ensures
            result == (PlayerTurnResult {
                defender_board,
                valid_attack,
                tile_at_attack,
                sunk_a_ship,
                won_the_game,
            }),
    {
        PlayerTurnResult { defender_board, valid_attack, tile_at_attack, sunk_a_ship, won_the_game }
    }
}

/// What a key did to a turn.
#[derive(Debug, PartialEq, Eq, Clone, Copy)]
pub enum TurnStep {
    /// The turn goes on with the selector at the position.
    Selecting(Position),
    /// The player has attacked.
    Finished(PlayerTurnResult),
    /// The player wants to leave the program.
    Quit,
}

/// The marker that shows the selector over a tile: `AlreadyAttacked` over a
/// hit or a miss, `Targeted` over anything else.
pub open spec fn marker_over(tile: Tile) -> Tile {
    if tile.resolved() {
        Tile::AlreadyAttacked
    } else {
        Tile::Targeted
    }
}

/// A copy of the board with the selector's marker at `selector_position`,
/// which must lie on the board; see [`marker_over`].
pub fn board_with_selector(defender_board: GameBoard, selector_position: Position) -> (shown:
    GameBoard)
    requires
        selector_position.on_board(),
    ensures
        shown@ == defender_board@.update(
            selector_position.index(),
            marker_over(defender_board.tile_at(selector_position)),
        ),
{
    let tile_to_place = match defender_board.get_tile_at_position(selector_position) {
        Tile::Ship(_) | Tile::Unknown | Tile::Targeted | Tile::AlreadyAttacked => Tile::Targeted,
        Tile::Hit => Tile::AlreadyAttacked,
        Tile::Miss => Tile::AlreadyAttacked,
    };

    let mut defender_board_with_selector = defender_board;
    defender_board_with_selector.place_marker_on_board(selector_position, tile_to_place);
    defender_board_with_selector
}

/// The direction that an arrow key stands for.
pub open spec fn direction_of(key: Key) -> Option<Movement> {
    match key {
        Key::Up => Some(Movement::Up),
        Key::Down => Some(Movement::Down),
        Key::Left => Some(Movement::Left),
        Key::Right => Some(Movement::Right),
        _ => None,
    }
}

/// What a key does during a player's turn, with the selector on a cell of
/// the board.
///
/// `q` quits.  An arrow moves the selector by one cell, round the edges.
/// Enter attacks the selected cell: a valid attack is recorded on the
/// defender's board and ends the turn with what it yielded; one that is not
/// valid changes nothing.  Every other key changes nothing.
pub fn player_turn_step(
    defender_board: &mut GameBoard,
    selector_position: Position,
    key: Key,
) -> (step: TurnStep)
    requires
        selector_position.on_board(),
    ensures
        match key {
            Key::Char(c) => *final(defender_board) == *old(defender_board) && step == if c == 'q' {
                TurnStep::Quit
            } else {
                TurnStep::Selecting(selector_position)
            },
            Key::Enter => {
                let feedback = attack_outcome(old(defender_board)@, selector_position);
                if feedback.valid_attack {
                    &&& final(defender_board)@ == cells_after_attack(
                        old(defender_board)@,
                        selector_position,
                    )
                    &&& step == TurnStep::Finished(
                        PlayerTurnResult {
                            defender_board: *final(defender_board),
                            valid_attack: true,
                            tile_at_attack: feedback.tile_at_attack,
                            sunk_a_ship: feedback.sunk_a_ship,
                            won_the_game: feedback.won_the_game,
                        },
                    )
                } else {
                    &&& *final(defender_board) == *old(defender_board)
                    &&& step == TurnStep::Selecting(selector_position)
                }
            },
            _ => *final(defender_board) == *old(defender_board) && step == TurnStep::Selecting(
                match direction_of(key) {
                    Some(direction) => moved(selector_position, direction, 0),
                    None => selector_position,
                },
            ),
        },
        step matches TurnStep::Selecting(position) ==> position.on_board(),
{
    match key {
        Key::Char(c) => {
            if c == 'q' {
                TurnStep::Quit
            } else {
                TurnStep::Selecting(selector_position)
            }
        },
        Key::Up => TurnStep::Selecting(move_selector_position(selector_position, Movement::Up, 0)),
        Key::Down => TurnStep::Selecting(
            move_selector_position(selector_position, Movement::Down, 0),
        ),
        Key::Left => TurnStep::Selecting(
            move_selector_position(selector_position, Movement::Left, 0),
        ),
        Key::Right => TurnStep::Selecting(
            move_selector_position(selector_position, Movement::Right, 0),
        ),
        Key::Enter => {
            let before = *defender_board;
            let feedback = resolve_attack(defender_board, selector_position);

            if feedback.valid_attack {
                TurnStep::Finished(
                    PlayerTurnResult::new(
                        *defender_board,
                        true,
                        feedback.tile_at_attack,
                        feedback.sunk_a_ship,
                        feedback.won_the_game,
                    ),
                )
            } else {
                *defender_board = before;
                TurnStep::Selecting(selector_position)
            }
        },
        _ => TurnStep::Selecting(selector_position),
    }
}

} // verus!
