//! What the board and the menus look like as text.
pub mod game;
pub mod inputs;
