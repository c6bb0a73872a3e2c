//! Battleship on a ten by ten grid: the board, the rules of placement and
//! attack, the computer opponents, and the simulation that pits them against
//! each other.
//!
//! A board is a grid of [`Tile`]s; in contracts it is the sequence of its
//! hundred cells, read row by row.  [`game`] holds the two rules:
//! [`game::place_ship_on_board`] and [`game::process_attack`].  [`fleet`]
//! says what a board with a whole fleet is, and [`tally`] counts cells.  The
//! computer's strategies live under [`game::computer`], the games between
//! computers in [`game::simulation`].  What a human player's keys do is
//! decided in [`game::player`] and [`display::inputs`]; reading keys and
//! drawing on the screen is left to the program that uses the library.
use vstd::prelude::*;

pub mod board;
pub mod config;
pub mod display;
pub mod fleet;
pub mod game;
pub mod position;
pub mod setup;
pub mod ship;
pub mod tally;
pub mod tile;
pub mod utils;

pub use crate::board::{Board, GameBoard};
pub use crate::config::{
    ComputerAttackStrategy, Difficulty, GameConfig, GameMode, Player, SimulationConfig,
};
pub use crate::position::Position;
pub use crate::ship::{Ship, ShipOrientation, ShipType};
pub use crate::tile::Tile;

verus! {

/// Number of rows and of columns of the grid.
pub const GRID_SIZE: i8 = 10;

/// Largest row or column index of the grid.
pub const GRID_ARRAY_SIZE: i8 = 9;

} // verus!
