//! The state of one cell of the grid.
use vstd::prelude::*;

use crate::ship::ShipType;

verus! {

/// State of one grid cell.  `Unknown` is water that nobody has attacked,
/// `Ship` a segment of the named ship that has not been hit.  `Hit` and
/// `Miss` record an attack.  `Targeted` and `AlreadyAttacked` are markers that
/// a display lays over a copy of the board; they are no result of an attack.
#[derive(Debug, PartialEq, Eq, Clone, Copy, Structural)]
pub enum Tile {
    Targeted,
    AlreadyAttacked,
    Hit,
    Miss,
    Unknown,
    Ship(ShipType),
}

impl Tile {
    /// The cell may still be attacked: it is `Unknown` or holds a ship.
    pub open spec fn open(self) -> bool {
        self is Unknown || self is Ship
    }

    /// An attack has been recorded on the cell.
    pub open spec fn resolved(self) -> bool {
        self is Hit || self is Miss
    }

    /// The cell is not plain water: it holds a ship or a mark.
    pub open spec fn occupied(self) -> bool {
        !(self is Unknown)
    }

    /// What an attack writes over this tile: `Hit` over a ship, `Miss` over
    /// anything else.
    pub open spec fn attacked(self) -> Tile {
        if self is Ship {
            Tile::Hit
        } else {
            Tile::Miss
        }
    }

    /// The three characters that draw the tile.
    pub open spec fn glyph(self) -> Seq<char> {
        match self {
            Tile::Targeted => " ⊕ "@,
            Tile::AlreadyAttacked => " ⊗ "@,
            Tile::Hit => " 🅇 "@,
            Tile::Miss => " ⓪ "@,
            Tile::Unknown => " • "@,
            Tile::Ship(ship_type) => ship_type.glyph(),
        }
    }

    /// The tile's name; for a ship, the name of its class.
    pub open spec fn name(self) -> Seq<char> {
        match self {
            Tile::Targeted => "Targeted"@,
            Tile::AlreadyAttacked => "AlreadyAttacked"@,
            Tile::Hit => "Hit"@,
            Tile::Miss => "Miss"@,
            Tile::Unknown => "Unknown"@,
            Tile::Ship(ship_type) => ship_type.name(),
        }
    }

    /// Text that draws the tile.
    pub fn get_tile_display(&self) -> (text: String)
        ensures
            text@ == self.glyph(),
    {
        match self {
            Tile::Targeted => " ⊕ ".to_string(),
            Tile::AlreadyAttacked => " ⊗ ".to_string(),
            Tile::Hit => " 🅇 ".to_string(),
            Tile::Miss => " ⓪ ".to_string(),
            Tile::Unknown => " • ".to_string(),
            Tile::Ship(ship_type) => ship_type.get_ship_display(),
        }
    }

    /// The tile's name; for a ship, the name of its class.
    pub fn get_tile_type_name(&self) -> (text: String)
        ensures
            text@ == self.name(),
    {
        match self {
            Tile::Targeted => "Targeted".to_string(),
            Tile::AlreadyAttacked => "AlreadyAttacked".to_string(),
            Tile::Hit => "Hit".to_string(),
            Tile::Miss => "Miss".to_string(),
            Tile::Unknown => "Unknown".to_string(),
            Tile::Ship(ship_type) => ship_type.get_ship_type_name(),
        }
    }

    /// Whether the cell may still be attacked.
    pub fn is_open(&self) -> (open: bool)
        ensures
            open == self.open(),
    {
        match self {
            Tile::Unknown | Tile::Ship(_) => true,
            _ => false,
        }
    }
}

} // verus!
