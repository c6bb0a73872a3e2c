//! A human player's setup, as far as it decides anything: which ships are
//! still to place, and what a key does to the ship being placed.  Reading
//! the keys and drawing the board is left to the caller.
use vstd::prelude::*;
use vstd::string::StringExecFns;

use crate::board::GameBoard;
use crate::config::Player;
use crate::display::inputs::{texts, Key, OptionSelect};
use crate::game::{can_place, footprint_on_grid, place_ship_on_board, with_ship};
use crate::position::Position;
use crate::ship::{Ship, ShipOrientation, ShipType};
use crate::utils::ships::get_ship;
use crate::utils::terminal::{move_selector_position, moved, Movement};

verus! {

/// Half the length, rounded down: how far the middle of a ship lies from its
/// first cell.
pub fn calculate_ship_center(ship_length: i8) -> (center: i8)
    ensures
        center == ship_length / 2,
{
    if ship_length % 2 == 0 {
        ship_length / 2
    } else {
        (ship_length - 1) / 2
    }
}

/// The ship to place and where its selector starts: in row 4, and as many
/// columns to the left of column 4 as half the ship is long, so that a ship
/// that lies across has its middle on column 4.  The ship lies on the grid
/// there.
pub fn placement_start(ship: ShipType) -> (start: (Ship, Position))
    ensures
        start.0.ship_type == ship,
        start.0.consistent(),
        start.1 == (Position { y: 4, x: (4 - ship.length() / 2) as i8 }),
        start.1.on_board(),
        footprint_on_grid(ship, start.1.y as int, start.1.x as int),
{
    let ship = get_ship(ship);
    let ship_length = ship.ship_type.get_ship_length();

    let selector_position = Position::new(4, 4 - calculate_ship_center(ship_length as i8));
    (ship, selector_position)
}

/// How far the ship reaches beyond its first cell along the axis of the
/// movement: its length less one along its own axis, nothing across it.
pub open spec fn reach(ship: Ship, movement: Movement) -> int {
    let along = match movement {
        Movement::Up | Movement::Down => ship.orientation is Vertical,
        Movement::Left | Movement::Right => ship.orientation is Horizontal,
    };
    if along {
        ship.ship_type.length() - 1
    } else {
        0
    }
}

/// See [`reach`].
pub fn cycle_offset(ship: &Ship, movement: Movement) -> (offset: i8)
    ensures
        offset == reach(*ship, movement),
        0 <= offset <= 4,
{
    let ship_length = ship.ship_type.get_ship_length();
    match movement {
        Movement::Up | Movement::Down => match ship.orientation {
            ShipOrientation::Horizontal => 0,
            ShipOrientation::Vertical => (ship_length - 1) as i8,
        },
        Movement::Left | Movement::Right => match ship.orientation {
            ShipOrientation::Horizontal => (ship_length - 1) as i8,
            ShipOrientation::Vertical => 0,
        },
    }
}

/// A coordinate pulled back onto the grid so that a ship of the given length
/// that starts there ends on the grid.
pub open spec fn clamped(coordinate: int, length: int) -> int {
    if coordinate < 0 {
        0
    } else if coordinate + length > 10 {
        10 - length
    } else {
        coordinate
    }
}

/// Where the selector stands after the ship was turned about its middle: a
/// ship that lay across moves up and right by half its length, one that
/// stood upright down and left, and both coordinates are [`clamped`].
pub open spec fn turned_selector(ship: Ship, selector_position: Position) -> Position {
    let length = ship.ship_type.length();
    let shift = length / 2;
    match ship.orientation {
        ShipOrientation::Horizontal => Position {
            y: clamped(selector_position.y - shift, length) as i8,
            x: clamped(selector_position.x + shift, length) as i8,
        },
        ShipOrientation::Vertical => Position {
            y: clamped(selector_position.y + shift, length) as i8,
            x: clamped(selector_position.x - shift, length) as i8,
        },
    }
}

/// The ship turned by a quarter.
pub open spec fn turned_ship(ship: Ship) -> Ship {
    Ship {
        ship_type: ship.ship_type.opposite(),
        orientation: match ship.orientation {
            ShipOrientation::Horizontal => ShipOrientation::Vertical,
            ShipOrientation::Vertical => ShipOrientation::Horizontal,
        },
    }
}

/// Turns the ship by a quarter about its middle and returns where the
/// selector stands afterwards; see [`turned_ship`] and [`turned_selector`].
/// The selector must be on the board.
///
/// The turned ship lies on the grid with its first cell at the new selector,
/// whichever way it is oriented.
pub fn rotate_ship(ship: &mut Ship, selector_position: Position) -> (new_position: Position)
    requires
        selector_position.on_board(),
    ensures
        *final(ship) == turned_ship(*old(ship)),
        new_position == turned_selector(*old(ship), selector_position),
        new_position.on_board(),
        footprint_on_grid(final(ship).ship_type, new_position.y as int, new_position.x as int),
        old(ship).consistent() ==> final(ship).consistent(),
{
    let ship_length = ship.ship_type.get_ship_length();
    let mut x = selector_position.get_x();
    let mut y = selector_position.get_y();
    let transform_amount = calculate_ship_center(ship_length as i8);

    match ship.orientation {
        ShipOrientation::Horizontal => {
            y -= transform_amount;
            x += transform_amount;
        },
        ShipOrientation::Vertical => {
            y += transform_amount;
            x -= transform_amount;
        },
    }

    if x < 0 {
        x = 0;
    } else if x + ship_length as i8 > 10 {
        x = 10 - ship_length as i8;
    }
    if y < 0 {
        y = 0;
    } else if y + ship_length as i8 > 10 {
        y = 10 - ship_length as i8;
    }
    ship.orientation =
    match ship.orientation {
        ShipOrientation::Horizontal => ShipOrientation::Vertical,
        ShipOrientation::Vertical => ShipOrientation::Horizontal,
    };

    ship.ship_type = ship.ship_type.get_opposite_ship_type();

    Position::new(y, x)
}

/// The board as it is drawn while the ship is moved about: the ship lies
/// over whatever its footprint holds, if the footprint lies on the grid, and
/// is left out if not.  The selector's coordinates must not be negative.
pub fn placement_preview(board: &GameBoard, ship: &Ship, selector_position: Position) -> (shown:
    GameBoard)
    requires
        selector_position.y >= 0,
        selector_position.x >= 0,
    ensures
        shown@ == if footprint_on_grid(
            ship.ship_type,
            selector_position.y as int,
            selector_position.x as int,
        ) {
            with_ship(
                board@,
                ship.ship_type,
                selector_position.y as int,
                selector_position.x as int,
            )
        } else {
            board@
        },
{
    GameBoard::set(
        place_ship_on_board(
            board.board,
            ship,
            selector_position.get_y() as usize,
            selector_position.get_x() as usize,
            true,
        ).1,
    )
}

/// What a key did to the placement of a ship.
#[derive(Debug, PartialEq, Eq, Clone, Copy, Structural)]
pub enum PlacementStep {
    /// The placement goes on with the selector at the position.
    Selecting(Position),
    /// The ship has been placed on the board.
    Placed,
    /// The player wants to leave the program.
    Quit,
}

/// What a key does while a ship is placed, with the selector on a cell of
/// the board.
///
/// `q` quits.  An arrow moves the selector by one cell and wraps round so
/// that the ship stays on the grid.  `r` turns the ship, see
/// [`rotate_ship`].  Enter places the ship if the placement is accepted, see
/// [`place_ship_on_board`], and changes nothing if it is not.  Every other
/// key changes nothing.
///
/// The selector stays on the board.  A ship that is held the way its type
/// says, and that lies on the grid, still does so after the step.
pub fn ship_placement_step(
    board: &mut GameBoard,
    ship: &mut Ship,
    selector_position: Position,
    key: Key,
) -> (step: PlacementStep)
    requires
        selector_position.on_board(),
    ensures
        match key {
            Key::Char(c) => if c == 'q' {
                &&& step == PlacementStep::Quit
                &&& *final(ship) == *old(ship)
                &&& *final(board) == *old(board)
            } else if c == 'r' {
                &&& step == PlacementStep::Selecting(turned_selector(*old(ship), selector_position))
                &&& *final(ship) == turned_ship(*old(ship))
                &&& *final(board) == *old(board)
            } else {
                &&& step == PlacementStep::Selecting(selector_position)
                &&& *final(ship) == *old(ship)
                &&& *final(board) == *old(board)
            },
            Key::Up => unchanged_but_moved(*old(board), *final(board), *old(ship), *final(ship),
                selector_position, Movement::Up, step),
            Key::Down => unchanged_but_moved(*old(board), *final(board), *old(ship), *final(ship),
                selector_position, Movement::Down, step),
            Key::Left => unchanged_but_moved(*old(board), *final(board), *old(ship), *final(ship),
                selector_position, Movement::Left, step),
            Key::Right => unchanged_but_moved(*old(board), *final(board), *old(ship), *final(ship),
                selector_position, Movement::Right, step),
            Key::Enter => {
                &&& *final(ship) == *old(ship)
                &&& if can_place(
                    old(board)@,
                    old(ship).ship_type,
                    selector_position.y as int,
                    selector_position.x as int,
                    false,
                ) {
                    &&& step == PlacementStep::Placed
                    &&& final(board)@ == with_ship(
                        old(board)@,
                        old(ship).ship_type,
                        selector_position.y as int,
                        selector_position.x as int,
                    )
                } else {
                    &&& step == PlacementStep::Selecting(selector_position)
                    &&& *final(board) == *old(board)
                }
            },
            _ => {
                &&& step == PlacementStep::Selecting(selector_position)
                &&& *final(ship) == *old(ship)
                &&& *final(board) == *old(board)
            },
        },
        step matches PlacementStep::Selecting(position) ==> position.on_board(),
        old(ship).consistent() ==> final(ship).consistent(),
        old(ship).consistent() && footprint_on_grid(
            old(ship).ship_type,
            selector_position.y as int,
            selector_position.x as int,
        ) ==> (step matches PlacementStep::Selecting(position) ==> footprint_on_grid(
            final(ship).ship_type,
            position.y as int,
            position.x as int,
        )),
{
    match key {
        Key::Char(c) => {
            if c == 'q' {
                PlacementStep::Quit
            } else if c == 'r' {
                PlacementStep::Selecting(rotate_ship(ship, selector_position))
            } else {
                PlacementStep::Selecting(selector_position)
            }
        },
        Key::Up => PlacementStep::Selecting(
            move_selector_position(
                selector_position,
                Movement::Up,
                cycle_offset(ship, Movement::Up),
            ),
        ),
        Key::Down => PlacementStep::Selecting(
            move_selector_position(
                selector_position,
                Movement::Down,
                cycle_offset(ship, Movement::Down),
            ),
        ),
        Key::Left => PlacementStep::Selecting(
            move_selector_position(
                selector_position,
                Movement::Left,
                cycle_offset(ship, Movement::Left),
            ),
        ),
        Key::Right => PlacementStep::Selecting(
            move_selector_position(
                selector_position,
                Movement::Right,
                cycle_offset(ship, Movement::Right),
            ),
        ),
        Key::Enter => {
            let (valid, new_board) = place_ship_on_board(
                board.board,
                ship,
                selector_position.get_y() as usize,
                selector_position.get_x() as usize,
                false,
            );

            if valid {
                board.board = new_board;
                PlacementStep::Placed
            } else {
                PlacementStep::Selecting(selector_position)
            }
        },
        _ => PlacementStep::Selecting(selector_position),
    }
}

/// An arrow key moved the selector and changed nothing else.
pub open spec fn unchanged_but_moved(
    board_before: GameBoard,
    board_after: GameBoard,
    ship_before: Ship,
    ship_after: Ship,
    selector_position: Position,
    movement: Movement,
    step: PlacementStep,
) -> bool {
    &&& board_after == board_before
    &&& ship_after == ship_before
    &&& step == PlacementStep::Selecting(
        moved(selector_position, movement, reach(ship_before, movement) as i8),
    )
}

/// The names of the five ship classes, in the order of the fleet.
pub fn all_ship_names() -> (ship_names: Vec<String>)
    ensures
        ship_names@.len() == 5,
        ship_names@[0]@ == "Carrier"@,
        ship_names@[1]@ == "Battleship"@,
        ship_names@[2]@ == "Cruiser"@,
        ship_names@[3]@ == "Submarine"@,
        ship_names@[4]@ == "Destroyer"@,
{
    let mut ship_names: Vec<String> = Vec::new();
    ship_names.push("Carrier".to_string());
    ship_names.push("Battleship".to_string());
    ship_names.push("Cruiser".to_string());
    ship_names.push("Submarine".to_string());
    ship_names.push("Destroyer".to_string());
    ship_names
}

/// Some name of the list reads as `text`.
pub open spec fn lists(ship_names: Seq<String>, text: Seq<char>) -> bool {
    exists|i: int| 0 <= i < ship_names.len() && (#[trigger] ship_names[i])@ == text
}

/// Whether some name of the list reads as `text`.
pub fn contains_name(ship_names: &Vec<String>, text: &str) -> (found: bool)
    ensures
        found == lists(ship_names@, text@),
{
    let wanted = text.to_string();
    let mut i: usize = 0;
    while i < ship_names.len()
        invariant
            i <= ship_names.len(),
            wanted@ == text@,
            forall|j: int| 0 <= j < i ==> (#[trigger] ship_names@[j])@ != text@,
        decreases ship_names.len() - i,
    {
        if ship_names[i] == wanted {
            return true;
        }
        i += 1;
    }
    false
}

/// The ship that a name of the menu of ships stands for, lying across.
pub open spec fn ship_named(name: Seq<char>) -> Option<ShipType> {
    if name == "Carrier"@ {
        Some(ShipType::CarrierHorizontal)
    } else if name == "Battleship"@ {
        Some(ShipType::BattleshipHorizontal)
    } else if name == "Cruiser"@ {
        Some(ShipType::CruiserHorizontal)
    } else if name == "Submarine"@ {
        Some(ShipType::SubmarineHorizontal)
    } else if name == "Destroyer"@ {
        Some(ShipType::DestroyerHorizontal)
    } else {
        None
    }
}

/// The predicate "does not read as `text`".
pub open spec fn other_than(text: Seq<char>) -> spec_fn(String) -> bool {
    |name: String| name@ != text
}

/// Takes the chosen ship from the names of the ships still to place.
///
/// For the name of a ship class, every entry that reads so leaves the list
/// and the ship is returned, lying across.  Any other text returns `None`
/// and leaves the list as it is.
pub fn take_ship(ship_names: &mut Vec<String>, choice: &String) -> (ship: Option<ShipType>)
    ensures
        ship == ship_named(choice@),
        final(ship_names)@ == if ship is Some {
            old(ship_names)@.filter(other_than(choice@))
        } else {
            old(ship_names)@
        },
{
    let ship_type = if *choice == "Carrier".to_string() {
        ShipType::CarrierHorizontal
    } else if *choice == "Battleship".to_string() {
        ShipType::BattleshipHorizontal
    } else if *choice == "Cruiser".to_string() {
        ShipType::CruiserHorizontal
    } else if *choice == "Submarine".to_string() {
        ShipType::SubmarineHorizontal
    } else if *choice == "Destroyer".to_string() {
        ShipType::DestroyerHorizontal
    } else {
        return None;
    };
    let ghost names = ship_names@;
    let ghost keep = other_than(choice@);
    let mut kept: Vec<String> = Vec::new();
    let mut i: usize = 0;
    assert(names.take(0).filter(keep) =~= Seq::<String>::empty()) by {
        reveal(Seq::filter);
    }
    while i < ship_names.len()
        invariant
            i <= names.len(),
            names == ship_names@,
            keep == other_than(choice@),
            kept@ == names.take(i as int).filter(keep),
        decreases names.len() - i,
    {
        proof {
            reveal(Seq::filter);
            assert(names.take(i + 1).drop_last() =~= names.take(i as int));
        }
        if ship_names[i] != *choice {
            kept.push(ship_names[i].clone());
        }
        i += 1;
    }
    assert(names.take(names.len() as int) =~= names);
    *ship_names = kept;
    Some(ship_type)
}

/// `name` alone if the list holds it, nothing if not.
pub open spec fn if_listed(ship_names: Seq<String>, name: Seq<char>) -> Seq<Seq<char>> {
    if lists(ship_names, name) {
        seq![name]
    } else {
        Seq::empty()
    }
}

/// The options of the menu of ships: of the names of the five classes, in
/// the order of the fleet, those that the list holds.
pub open spec fn offered(ship_names: Seq<String>) -> Seq<Seq<char>> {
    if_listed(ship_names, "Carrier"@) + if_listed(ship_names, "Battleship"@) + if_listed(
        ship_names,
        "Cruiser"@,
    ) + if_listed(ship_names, "Submarine"@) + if_listed(ship_names, "Destroyer"@)
}

/// The menu of the ships that `player` has still to place, see [`offered`].
pub fn ship_menu(player: &Player, ship_names: &Vec<String>) -> (menu: OptionSelect)
    ensures
        menu.title@ == player.name() + ", Select a ship to place"@,
        texts(menu.options@) == offered(ship_names@),
{
    let mut title = player.get_player_name();
    title.append(", Select a ship to place");
    let menu0 = OptionSelect::new().set_title(title.as_str());
    assert(texts(menu0.options@) =~= Seq::<Seq<char>>::empty());
    let menu1 = menu0.add_option_if_true(
        "Carrier".to_string(),
        contains_name(ship_names, "Carrier"),
    );
    assert(texts(menu1.options@) =~= texts(menu0.options@) + if_listed(ship_names@, "Carrier"@));
    let menu2 = menu1.add_option_if_true(
        "Battleship".to_string(),
        contains_name(ship_names, "Battleship"),
    );
    assert(texts(menu2.options@) =~= texts(menu1.options@) + if_listed(
        ship_names@,
        "Battleship"@,
    ));
    let menu3 = menu2.add_option_if_true(
        "Cruiser".to_string(),
        contains_name(ship_names, "Cruiser"),
    );
    assert(texts(menu3.options@) =~= texts(menu2.options@) + if_listed(ship_names@, "Cruiser"@));
    let menu4 = menu3.add_option_if_true(
        "Submarine".to_string(),
        contains_name(ship_names, "Submarine"),
    );
    assert(texts(menu4.options@) =~= texts(menu3.options@) + if_listed(
        ship_names@,
        "Submarine"@,
    ));
    let menu5 = menu4.add_option_if_true(
        "Destroyer".to_string(),
        contains_name(ship_names, "Destroyer"),
    );
    assert(texts(menu5.options@) =~= texts(menu4.options@) + if_listed(
        ship_names@,
        "Destroyer"@,
    ));
    assert(texts(menu5.options@) =~= offered(ship_names@));
    menu5
}

} // verus!
