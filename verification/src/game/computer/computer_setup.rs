//! Setting up a board by chance.
use vstd::prelude::*;

use crate::board::GameBoard;
use crate::fleet::{
    fleet_upto, is_fleet, lemma_fleet_complete, lemma_fleet_grows, lemma_origin_exists, lemma_water,
};
use crate::game::{can_place, place_ship_on_board, with_ship};
use crate::position::Position;
use crate::ship::{Ship, ShipType};
use crate::utils::ships::get_ship;
use crate::utils::{random_50_50, random_index};
use crate::GRID_SIZE;

verus! {

/// The five ships of a fleet in the order carrier, battleship, cruiser,
/// submarine, destroyer, each turned across or down by the toss of a coin.
pub fn make_random_list_of_ships() -> (ships: Vec<Ship>)
    ensures
        ships.len() == 5,
        forall|i: int| 0 <= i < 5 ==> (#[trigger] ships[i]).ship_type.class() == i,
        forall|i: int| 0 <= i < 5 ==> (#[trigger] ships[i]).consistent(),
{
    let mut ships = Vec::new();

    if random_50_50() {
        ships.push(get_ship(ShipType::CarrierHorizontal));
    } else {
        ships.push(get_ship(ShipType::CarrierVertical));
    }

    if random_50_50() {
        ships.push(get_ship(ShipType::BattleshipHorizontal));
    } else {
        ships.push(get_ship(ShipType::BattleshipVertical));
    }

    if random_50_50() {
        ships.push(get_ship(ShipType::CruiserHorizontal));
    } else {
        ships.push(get_ship(ShipType::CruiserVertical));
    }

    if random_50_50() {
        ships.push(get_ship(ShipType::SubmarineHorizontal));
    } else {
        ships.push(get_ship(ShipType::SubmarineVertical));
    }

    if random_50_50() {
        ships.push(get_ship(ShipType::DestroyerHorizontal));
    } else {
        ships.push(get_ship(ShipType::DestroyerVertical));
    }

    ships
}

/// Every first cell at which `ship` can be placed on clear water, in
/// row-by-row order.
pub fn legal_origins(board: &GameBoard, ship: &Ship) -> (origins: Vec<Position>)
    ensures
        forall|k: int|
            0 <= k < origins.len() ==> (#[trigger] origins[k]).on_board() && can_place(
                board@,
                ship.ship_type,
                origins[k].y as int,
                origins[k].x as int,
                false,
            ),
        forall|position: Position|
            position.on_board() && can_place(
                board@,
                ship.ship_type,
                position.y as int,
                position.x as int,
                false,
            ) ==> #[trigger] origins@.contains(position),
        forall|j: int, k: int|
            0 <= j < k < origins.len() ==> (#[trigger] origins[j]).index() < (
            #[trigger] origins[k]).index(),
{
    let mut origins: Vec<Position> = Vec::new();
    let mut i: usize = 0;
    while i < 100
        invariant
            i <= 100,
            forall|k: int|
                0 <= k < origins.len() ==> (#[trigger] origins[k]).on_board() && origins[k].index()
                    < i && can_place(
                    board@,
                    ship.ship_type,
                    origins[k].y as int,
                    origins[k].x as int,
                    false,
                ),
            forall|position: Position|
                position.on_board() && position.index() < i && can_place(
                    board@,
                    ship.ship_type,
                    position.y as int,
                    position.x as int,
                    false,
                ) ==> #[trigger] origins@.contains(position),
            forall|j: int, k: int|
                0 <= j < k < origins.len() ==> (#[trigger] origins[j]).index() < (
                #[trigger] origins[k]).index(),
        decreases 100 - i,
    {
        let row = i / 10;
        let col = i % 10;
        let attempt = place_ship_on_board(board.board, ship, row, col, false);
        let ghost before = origins@;
        if attempt.0 {
            let origin = Position::new(row as i8, col as i8);
            origins.push(origin);
            assert(origins@[before.len() as int] == origin);
        }
        assert forall|position: Position|
            position.on_board() && position.index() < i + 1 && can_place(
                board@,
                ship.ship_type,
                position.y as int,
                position.x as int,
                false,
            ) implies #[trigger] origins@.contains(position) by {
            if position.index() < i {
                assert(before.contains(position));
                let k = choose|k: int| 0 <= k < before.len() && before[k] == position;
                assert(origins@[k] == position);
            } else {
                assert(position.y == row && position.x == col);
                assert(origins@[before.len() as int] == position);
            }
        }
        i += 1;
    }
    origins
}

/// Places `ship` on clear water at a first cell drawn by chance, and returns
/// that cell: every cell at which the ship can be placed is equally likely.
///
/// One cell of the grid is drawn; if the ship cannot be placed there, a cell
/// is drawn among those where it can.  There must be such a cell; there is
/// one on every board with fewer than twenty occupied cells.
pub fn place_ship_at_random(board: &mut GameBoard, ship: &Ship) -> (origin: Position)
    requires
        exists|row: int, col: int|
            0 <= row < 10 && 0 <= col < 10 && #[trigger] can_place(
                old(board)@,
                ship.ship_type,
                row,
                col,
                false,
            ),
    ensures
        origin.on_board(),
        can_place(old(board)@, ship.ship_type, origin.y as int, origin.x as int, false),
        final(board)@ == with_ship(
            old(board)@,
            ship.ship_type,
            origin.y as int,
            origin.x as int,
        ),
{
    let row: usize = random_index(GRID_SIZE as usize);
    let col: usize = random_index(GRID_SIZE as usize);

    let result = place_ship_on_board(board.board, ship, row, col, false);

    if result.0 {
        board.board = result.1;
        Position::new(row as i8, col as i8)
    } else {
        let origins = legal_origins(board, ship);
        proof {
            let (r, c) = choose|r: int, c: int|
                0 <= r < 10 && 0 <= c < 10 && #[trigger] can_place(
                    board@,
                    ship.ship_type,
                    r,
                    c,
                    false,
                );
            let free = Position { y: r as i8, x: c as i8 };
            assert(origins@.contains(free));
        }
        let origin = origins[random_index(origins.len())];
        let placed = place_ship_on_board(
            board.board,
            ship,
            origin.get_y() as usize,
            origin.get_x() as usize,
            false,
        );
        board.board = placed.1;
        origin
    }
}

/// A board with a fleet set up by chance.
///
/// The board holds one whole ship of each of the five classes, each across or
/// down, and nothing else: seventeen ship cells in all, no two ships on one
/// cell, and every cell still open to attack.
pub fn computer_setup() -> (board: GameBoard)
    ensures
        is_fleet(board@),
        board.ships_left() == 17,
        board.open_cells() == 100,
{
    let mut board = GameBoard::new();
    let ships = make_random_list_of_ships();

    proof {
        lemma_water(board@);
    }
    let mut n: usize = 0;
    while n < ships.len()
        invariant
            n <= 5,
            ships.len() == 5,
            forall|i: int| 0 <= i < 5 ==> (#[trigger] ships[i]).ship_type.class() == i,
            fleet_upto(board@, n as int),
        decreases 5 - n,
    {
        let ship = &ships[n];
        let ghost before = board@;
        proof {
            lemma_origin_exists(before, ship.ship_type);
        }
        let origin = place_ship_at_random(&mut board, ship);
        proof {
            lemma_fleet_grows(before, ship.ship_type, origin.y as int, origin.x as int, n as int);
        }
        n += 1;
    }
    proof {
        lemma_fleet_complete(board@);
    }

    board
}

} // verus!
