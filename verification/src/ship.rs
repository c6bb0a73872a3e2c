//! The ships of the fleet: five classes, each in two orientations.
use vstd::prelude::*;

verus! {

/// How a ship lies on the grid.
#[derive(Debug, PartialEq, Eq, Clone, Copy, Structural)]
pub enum ShipOrientation {
    Horizontal,
    Vertical,
}

/// A ship class together with its orientation.  Tiles carry this value, so
/// the cells of one ship are recognised by it.
#[derive(Debug, PartialEq, Eq, Clone, Copy, Structural)]
pub enum ShipType {
    CarrierHorizontal,
    BattleshipHorizontal,
    CruiserHorizontal,
    SubmarineHorizontal,
    DestroyerHorizontal,
    CarrierVertical,
    BattleshipVertical,
    CruiserVertical,
    SubmarineVertical,
    DestroyerVertical,
}

impl ShipType {
    /// Position of the ship's class in the fleet: carrier 0, battleship 1,
    /// cruiser 2, submarine 3, destroyer 4.
    pub open spec fn class(self) -> int {
        match self {
            ShipType::CarrierHorizontal | ShipType::CarrierVertical => 0,
            ShipType::BattleshipHorizontal | ShipType::BattleshipVertical => 1,
            ShipType::CruiserHorizontal | ShipType::CruiserVertical => 2,
            ShipType::SubmarineHorizontal | ShipType::SubmarineVertical => 3,
            ShipType::DestroyerHorizontal | ShipType::DestroyerVertical => 4,
        }
    }

    /// Number of cells the ship occupies.
    pub open spec fn length(self) -> int {
        match self {
            ShipType::CarrierHorizontal | ShipType::CarrierVertical => 5,
            ShipType::BattleshipHorizontal | ShipType::BattleshipVertical => 4,
            ShipType::CruiserHorizontal | ShipType::CruiserVertical => 3,
            ShipType::SubmarineHorizontal | ShipType::SubmarineVertical => 3,
            ShipType::DestroyerHorizontal | ShipType::DestroyerVertical => 2,
        }
    }

    /// The orientation that the value encodes.
    pub open spec fn orientation(self) -> ShipOrientation {
        match self {
            ShipType::CarrierHorizontal
            | ShipType::BattleshipHorizontal
            | ShipType::CruiserHorizontal
            | ShipType::SubmarineHorizontal
            | ShipType::DestroyerHorizontal => ShipOrientation::Horizontal,
            _ => ShipOrientation::Vertical,
        }
    }

    /// The same class in the other orientation.
    pub open spec fn opposite(self) -> ShipType {
        match self {
            ShipType::CarrierHorizontal => ShipType::CarrierVertical,
            ShipType::BattleshipHorizontal => ShipType::BattleshipVertical,
            ShipType::CruiserHorizontal => ShipType::CruiserVertical,
            ShipType::SubmarineHorizontal => ShipType::SubmarineVertical,
            ShipType::DestroyerHorizontal => ShipType::DestroyerVertical,
            ShipType::CarrierVertical => ShipType::CarrierHorizontal,
            ShipType::BattleshipVertical => ShipType::BattleshipHorizontal,
            ShipType::CruiserVertical => ShipType::CruiserHorizontal,
            ShipType::SubmarineVertical => ShipType::SubmarineHorizontal,
            ShipType::DestroyerVertical => ShipType::DestroyerHorizontal,
        }
    }

    /// The ship of the given class (see [`ShipType::class`]) and orientation.
    pub open spec fn of_class(class: int, orientation: ShipOrientation) -> ShipType {
        match orientation {
            ShipOrientation::Horizontal => if class == 0 {
                ShipType::CarrierHorizontal
            } else if class == 1 {
                ShipType::BattleshipHorizontal
            } else if class == 2 {
                ShipType::CruiserHorizontal
            } else if class == 3 {
                ShipType::SubmarineHorizontal
            } else {
                ShipType::DestroyerHorizontal
            },
            ShipOrientation::Vertical => if class == 0 {
                ShipType::CarrierVertical
            } else if class == 1 {
                ShipType::BattleshipVertical
            } else if class == 2 {
                ShipType::CruiserVertical
            } else if class == 3 {
                ShipType::SubmarineVertical
            } else {
                ShipType::DestroyerVertical
            },
        }
    }

    /// The class name, without the orientation.
    pub open spec fn name(self) -> Seq<char> {
        match self {
            ShipType::CarrierHorizontal | ShipType::CarrierVertical => "Carrier"@,
            ShipType::BattleshipHorizontal | ShipType::BattleshipVertical => "Battleship"@,
            ShipType::CruiserHorizontal | ShipType::CruiserVertical => "Cruiser"@,
            ShipType::SubmarineHorizontal | ShipType::SubmarineVertical => "Submarine"@,
            ShipType::DestroyerHorizontal | ShipType::DestroyerVertical => "Destroyer"@,
        }
    }

    /// The three characters that draw one cell of the ship.
    pub open spec fn glyph(self) -> Seq<char> {
        match self {
            ShipType::CarrierHorizontal | ShipType::CarrierVertical => " ▧ "@,
            ShipType::BattleshipHorizontal | ShipType::BattleshipVertical => " # "@,
            ShipType::CruiserHorizontal | ShipType::SubmarineHorizontal => " ▭ "@,
            ShipType::CruiserVertical | ShipType::SubmarineVertical => " ▯ "@,
            ShipType::DestroyerHorizontal | ShipType::DestroyerVertical => " △ "@,
        }
    }

    /// Text that draws one cell of the ship.
    pub fn get_ship_display(&self) -> (text: String)
        ensures
            text@ == self.glyph(),
    {
        match self {
            ShipType::CarrierHorizontal | ShipType::CarrierVertical => " ▧ ".to_string(),
            ShipType::BattleshipHorizontal | ShipType::BattleshipVertical => " # ".to_string(),
            ShipType::CruiserHorizontal | ShipType::SubmarineHorizontal => " ▭ ".to_string(),
            ShipType::CruiserVertical | ShipType::SubmarineVertical => " ▯ ".to_string(),
            ShipType::DestroyerHorizontal | ShipType::DestroyerVertical => " △ ".to_string(),
        }
    }

    /// Number of cells the ship occupies: between 2 and 5.
    pub fn get_ship_length(&self) -> (len: u8)
        ensures
            len == self.length(),
            2 <= len <= 5,
    {
        match self {
            ShipType::CarrierHorizontal | ShipType::CarrierVertical => 5,
            ShipType::BattleshipHorizontal | ShipType::BattleshipVertical => 4,
            ShipType::CruiserHorizontal | ShipType::CruiserVertical => 3,
            ShipType::SubmarineHorizontal | ShipType::SubmarineVertical => 3,
            ShipType::DestroyerHorizontal | ShipType::DestroyerVertical => 2,
        }
    }

    /// The same class turned by a quarter: class and length stay, the
    /// orientation flips, and turning twice gives the ship back.
    pub fn get_opposite_ship_type(&self) -> (turned: ShipType)
        ensures
            turned == self.opposite(),
            turned.class() == self.class(),
            turned.length() == self.length(),
            turned.orientation() != self.orientation(),
            turned.opposite() == *self,
    {
        match self {
            ShipType::CarrierHorizontal => ShipType::CarrierVertical,
            ShipType::BattleshipHorizontal => ShipType::BattleshipVertical,
            ShipType::CruiserHorizontal => ShipType::CruiserVertical,
            ShipType::SubmarineHorizontal => ShipType::SubmarineVertical,
            ShipType::DestroyerHorizontal => ShipType::DestroyerVertical,
            ShipType::CarrierVertical => ShipType::CarrierHorizontal,
            ShipType::BattleshipVertical => ShipType::BattleshipHorizontal,
            ShipType::CruiserVertical => ShipType::CruiserHorizontal,
            ShipType::SubmarineVertical => ShipType::SubmarineHorizontal,
            ShipType::DestroyerVertical => ShipType::DestroyerHorizontal,
        }
    }

    /// The orientation that the value encodes.
    pub fn get_orientation(&self) -> (orientation: ShipOrientation)
        ensures
            orientation == self.orientation(),
    {
        match self {
            ShipType::CarrierHorizontal
            | ShipType::BattleshipHorizontal
            | ShipType::CruiserHorizontal
            | ShipType::SubmarineHorizontal
            | ShipType::DestroyerHorizontal => ShipOrientation::Horizontal,
            _ => ShipOrientation::Vertical,
        }
    }

    /// The class name, without the orientation.
    pub fn get_ship_type_name(&self) -> (text: String)
        ensures
            text@ == self.name(),
    {
        match self {
            ShipType::CarrierHorizontal | ShipType::CarrierVertical => "Carrier".to_string(),
            ShipType::BattleshipHorizontal | ShipType::BattleshipVertical => {
                "Battleship".to_string()
            },
            ShipType::CruiserHorizontal | ShipType::CruiserVertical => "Cruiser".to_string(),
            ShipType::SubmarineHorizontal | ShipType::SubmarineVertical => "Submarine".to_string(),
            ShipType::DestroyerHorizontal | ShipType::DestroyerVertical => "Destroyer".to_string(),
        }
    }
}

/// A ship to place: its type, and the orientation it is held in while the
/// player turns it.
#[derive(Debug, PartialEq, Eq, Clone, Copy, Structural)]
pub struct Ship {
    pub ship_type: ShipType,
    pub orientation: ShipOrientation,
}

impl Ship {
    pub fn new(ship_type: ShipType, orientation: ShipOrientation) -> (ship: Self)
        ensures
            ship.ship_type == ship_type,
            ship.orientation == orientation,
    {
        Self { ship_type, orientation }
    }

    /// The orientation field agrees with the one that the type encodes.
    pub open spec fn consistent(self) -> bool {
        self.orientation == self.ship_type.orientation()
    }
}

} // verus!
