//! The fleet on a board: what it means that a board holds the five ships,
//! and why a ship of the fleet always finds room.
use vstd::prelude::*;

use crate::board::{is_occupied, is_open, is_ship, is_tile, no_ship};
use crate::game::{
    attack_outcome, can_place, cells_after_attack, footprint_clear, footprint_on_grid,
    in_footprint, with_ship,
};
use crate::position::Position;
use crate::ship::{ShipOrientation, ShipType};
use crate::tally::{
    block_holds, count_in, lemma_count_agree, lemma_count_all, lemma_count_blocks,
    lemma_count_update, lemma_count_zero,
};
use crate::tile::Tile;

verus! {

/// The cells that hold `ship_type` are exactly the footprint of one ship of
/// that type with its first cell at (`row`, `col`), and the footprint lies on
/// the grid.
pub open spec fn holds_run(cells: Seq<Tile>, ship_type: ShipType, row: int, col: int) -> bool {
    &&& footprint_on_grid(ship_type, row, col)
    &&& forall|i: int|
        0 <= i < 100 ==> ((#[trigger] cells[i] == Tile::Ship(ship_type)) <==> in_footprint(
            ship_type,
            row,
            col,
            i / 10,
            i % 10,
        ))
}

/// The board holds one whole ship of the type, and no further cell of it.
pub open spec fn holds_ship(cells: Seq<Tile>, ship_type: ShipType) -> bool {
    exists|row: int, col: int| #[trigger] holds_run(cells, ship_type, row, col)
}

/// No cell holds the type.
pub open spec fn lacks_ship(cells: Seq<Tile>, ship_type: ShipType) -> bool {
    forall|i: int| 0 <= i < 100 ==> #[trigger] cells[i] != Tile::Ship(ship_type)
}

/// The board holds the ship of the class in exactly one orientation.
pub open spec fn holds_class(cells: Seq<Tile>, class: int) -> bool {
    let across = ShipType::of_class(class, ShipOrientation::Horizontal);
    let down = ShipType::of_class(class, ShipOrientation::Vertical);
    ||| holds_ship(cells, across) && lacks_ship(cells, down)
    ||| holds_ship(cells, down) && lacks_ship(cells, across)
}

/// The board holds the ship of the class in neither orientation.
pub open spec fn lacks_class(cells: Seq<Tile>, class: int) -> bool {
    &&& lacks_ship(cells, ShipType::of_class(class, ShipOrientation::Horizontal))
    &&& lacks_ship(cells, ShipType::of_class(class, ShipOrientation::Vertical))
}

/// Every cell is water or an unhit ship.
pub open spec fn untouched(cells: Seq<Tile>) -> bool {
    forall|i: int| 0 <= i < 100 ==> (#[trigger] cells[i]) is Unknown || cells[i] is Ship
}

/// A board as it stands before the first attack: a hundred cells of water and
/// ships, with one whole ship of each of the five classes.  As each ship owns
/// all the cells of its footprint, no two ships overlap.
pub open spec fn is_fleet(cells: Seq<Tile>) -> bool {
    &&& cells.len() == 100
    &&& untouched(cells)
    &&& holds_class(cells, 0)
    &&& holds_class(cells, 1)
    &&& holds_class(cells, 2)
    &&& holds_class(cells, 3)
    &&& holds_class(cells, 4)
}

/// Number of cells that the first `n` classes of the fleet occupy.
pub open spec fn cells_of_classes(n: int) -> nat {
    if n <= 0 {
        0
    } else if n == 1 {
        5
    } else if n == 2 {
        9
    } else if n == 3 {
        12
    } else if n == 4 {
        15
    } else {
        17
    }
}

/// The state of one class while the fleet is set up: placed if it is among
/// the first `n`, absent otherwise.
pub open spec fn class_set_up(cells: Seq<Tile>, class: int, n: int) -> bool {
    if class < n {
        holds_class(cells, class)
    } else {
        lacks_class(cells, class)
    }
}

/// A board on which the first `n` classes have been placed and nothing else.
pub open spec fn fleet_upto(cells: Seq<Tile>, n: int) -> bool {
    &&& cells.len() == 100
    &&& untouched(cells)
    &&& class_set_up(cells, 0, n)
    &&& class_set_up(cells, 1, n)
    &&& class_set_up(cells, 2, n)
    &&& class_set_up(cells, 3, n)
    &&& class_set_up(cells, 4, n)
    &&& count_in(cells, is_ship()) == cells_of_classes(n)
    &&& count_in(cells, is_occupied()) == cells_of_classes(n)
    &&& count_in(cells, is_open()) == 100
}

/// A board of water holds no class of the fleet.
pub proof fn lemma_water(cells: Seq<Tile>)
    requires
        cells == Seq::new(100, |i: int| Tile::Unknown),
    ensures
        fleet_upto(cells, 0),
{
    lemma_count_zero(cells, is_ship());
    lemma_count_zero(cells, is_occupied());
    lemma_count_all(cells, is_open());
}

/// The twenty blocks of five cells that a search for room looks at: for a
/// horizontal ship the two halves of each row, for a vertical one the two
/// halves of each column.
pub open spec fn block_of(ship_type: ShipType) -> spec_fn(int) -> int {
    match ship_type.orientation() {
        ShipOrientation::Horizontal => |i: int| i / 5,
        ShipOrientation::Vertical => |i: int| 2 * (i % 10) + i / 50,
    }
}

/// Room for one more: on a board with fewer than twenty occupied cells every
/// ship can be placed somewhere.  (Each ship fits into each of twenty
/// disjoint blocks of five cells, and fewer than twenty cells cannot block
/// them all.)
pub proof fn lemma_origin_exists(cells: Seq<Tile>, ship_type: ShipType)
    requires
        cells.len() == 100,
        count_in(cells, is_occupied()) < 20,
    ensures
        exists|row: int, col: int|
            0 <= row < 10 && 0 <= col < 10 && #[trigger] can_place(
                cells,
                ship_type,
                row,
                col,
                false,
            ),
{
    if forall|row: int, col: int|
        0 <= row < 10 && 0 <= col < 10 ==> !#[trigger] can_place(
            cells,
            ship_type,
            row,
            col,
            false,
        ) {
        let block = block_of(ship_type);
        assert forall|k: int| 0 <= k < 20 implies #[trigger] block_holds(
            cells,
            is_occupied(),
            block,
            k,
        ) by {
            let row = match ship_type.orientation() {
                ShipOrientation::Horizontal => k / 2,
                ShipOrientation::Vertical => 5 * (k % 2),
            };
            let col = match ship_type.orientation() {
                ShipOrientation::Horizontal => 5 * (k % 2),
                ShipOrientation::Vertical => k / 2,
            };
            assert(footprint_on_grid(ship_type, row, col));
            assert(!can_place(cells, ship_type, row, col, false));
            assert(!footprint_clear(cells, ship_type, row, col));
            let i = choose|i: int|
                0 <= i < 100 && in_footprint(ship_type, row, col, i / 10, i % 10) && !(
                #[trigger] cells[i] is Unknown);
            assert(block(i) == k);
            assert(is_occupied()(cells[i]));
        }
        lemma_count_blocks(cells, is_occupied(), block, 20);
    }
}

/// The cells with the first `n` cells of the ship's footprint written.
pub open spec fn with_ship_upto(
    cells: Seq<Tile>,
    ship_type: ShipType,
    row: int,
    col: int,
    n: int,
) -> Seq<Tile> {
    Seq::new(
        100,
        |i: int|
            if in_footprint(ship_type, row, col, i / 10, i % 10) && (i / 10 - row) + (i % 10 - col)
                < n {
                Tile::Ship(ship_type)
            } else {
                cells[i]
            },
    )
}

proof fn lemma_with_ship_upto_count(
    cells: Seq<Tile>,
    ship_type: ShipType,
    row: int,
    col: int,
    p: spec_fn(Tile) -> bool,
    n: int,
)
    requires
        cells.len() == 100,
        footprint_on_grid(ship_type, row, col),
        footprint_clear(cells, ship_type, row, col),
        0 <= n <= ship_type.length(),
        !p(Tile::Unknown),
        p(Tile::Ship(ship_type)),
    ensures
        count_in(with_ship_upto(cells, ship_type, row, col, n), p) == count_in(cells, p) + n,
    decreases n,
{
    if n == 0 {
        assert(with_ship_upto(cells, ship_type, row, col, n) =~= cells);
    } else {
        lemma_with_ship_upto_count(cells, ship_type, row, col, p, n - 1);
        let before = with_ship_upto(cells, ship_type, row, col, n - 1);
        let i = match ship_type.orientation() {
            ShipOrientation::Horizontal => 10 * row + col + (n - 1),
            ShipOrientation::Vertical => 10 * (row + n - 1) + col,
        };
        assert(in_footprint(ship_type, row, col, i / 10, i % 10));
        assert(cells[i] is Unknown);
        assert(before[i] == cells[i]);
        assert(with_ship_upto(cells, ship_type, row, col, n) =~= before.update(
            i,
            Tile::Ship(ship_type),
        ));
        lemma_count_update(before, p, i, Tile::Ship(ship_type));
    }
}

/// Placing a ship on clear water adds its length to the number of ship cells
/// and of occupied cells, and leaves the number of open cells as it was.
pub proof fn lemma_with_ship_counts(cells: Seq<Tile>, ship_type: ShipType, row: int, col: int)
    requires
        cells.len() == 100,
        can_place(cells, ship_type, row, col, false),
    ensures
        count_in(with_ship(cells, ship_type, row, col), is_ship()) == count_in(cells, is_ship())
            + ship_type.length(),
        count_in(with_ship(cells, ship_type, row, col), is_occupied()) == count_in(
            cells,
            is_occupied(),
        ) + ship_type.length(),
        count_in(with_ship(cells, ship_type, row, col), is_open()) == count_in(cells, is_open()),
{
    let after = with_ship(cells, ship_type, row, col);
    assert(with_ship_upto(cells, ship_type, row, col, ship_type.length()) =~= after);
    lemma_with_ship_upto_count(cells, ship_type, row, col, is_ship(), ship_type.length());
    lemma_with_ship_upto_count(cells, ship_type, row, col, is_occupied(), ship_type.length());
    assert forall|i: int| 0 <= i < 100 implies is_open()(#[trigger] after[i]) == is_open()(
        #[trigger] cells[i],
    ) by {
        if in_footprint(ship_type, row, col, i / 10, i % 10) {
            assert(cells[i] is Unknown);
        }
    }
    lemma_count_agree(after, cells, is_open());
}

/// What placing a ship does to the ships of another type: nothing.
proof fn lemma_other_ship_kept(
    cells: Seq<Tile>,
    ship_type: ShipType,
    row: int,
    col: int,
    other: ShipType,
)
    requires
        cells.len() == 100,
        can_place(cells, ship_type, row, col, false),
        other != ship_type,
    ensures
        holds_ship(cells, other) ==> holds_ship(with_ship(cells, ship_type, row, col), other),
        lacks_ship(cells, other) ==> lacks_ship(with_ship(cells, ship_type, row, col), other),
{
    let after = with_ship(cells, ship_type, row, col);
    assert forall|i: int| 0 <= i < 100 implies ((#[trigger] after[i] == Tile::Ship(other)) <==> (
    cells[i] == Tile::Ship(other))) by {
        if in_footprint(ship_type, row, col, i / 10, i % 10) {
            assert(cells[i] is Unknown);
        }
    }
    if holds_ship(cells, other) {
        let (r, c) = choose|r: int, c: int| #[trigger] holds_run(cells, other, r, c);
        assert forall|i: int| 0 <= i < 100 implies ((#[trigger] after[i] == Tile::Ship(other))
            <==> in_footprint(other, r, c, i / 10, i % 10)) by {
            assert((after[i] == Tile::Ship(other)) <==> (cells[i] == Tile::Ship(other)));
        }
        assert(holds_run(after, other, r, c));
    }
    if lacks_ship(cells, other) {
        assert forall|i: int| 0 <= i < 100 implies #[trigger] after[i] != Tile::Ship(other) by {
            assert((after[i] == Tile::Ship(other)) <==> (cells[i] == Tile::Ship(other)));
        }
    }
}

/// What placing a ship does to another class: nothing.
proof fn lemma_other_class_kept(
    cells: Seq<Tile>,
    ship_type: ShipType,
    row: int,
    col: int,
    class: int,
)
    requires
        cells.len() == 100,
        can_place(cells, ship_type, row, col, false),
        0 <= class < 5,
        class != ship_type.class(),
    ensures
        holds_class(cells, class) ==> holds_class(with_ship(cells, ship_type, row, col), class),
        lacks_class(cells, class) ==> lacks_class(with_ship(cells, ship_type, row, col), class),
{
    let across = ShipType::of_class(class, ShipOrientation::Horizontal);
    let down = ShipType::of_class(class, ShipOrientation::Vertical);
    lemma_other_ship_kept(cells, ship_type, row, col, across);
    lemma_other_ship_kept(cells, ship_type, row, col, down);
}

/// Setting up the fleet, one step: on a board that holds the first `n`
/// classes, placing a ship of class `n` on clear water gives a board that
/// holds the first `n + 1`.
pub proof fn lemma_fleet_grows(cells: Seq<Tile>, ship_type: ShipType, row: int, col: int, n: int)
    requires
        0 <= n < 5,
        fleet_upto(cells, n),
        ship_type.class() == n,
        can_place(cells, ship_type, row, col, false),
    ensures
        fleet_upto(with_ship(cells, ship_type, row, col), n + 1),
{
    let after = with_ship(cells, ship_type, row, col);
    lemma_with_ship_counts(cells, ship_type, row, col);
    if n != 0 {
        lemma_other_class_kept(cells, ship_type, row, col, 0);
    }
    if n != 1 {
        lemma_other_class_kept(cells, ship_type, row, col, 1);
    }
    if n != 2 {
        lemma_other_class_kept(cells, ship_type, row, col, 2);
    }
    if n != 3 {
        lemma_other_class_kept(cells, ship_type, row, col, 3);
    }
    if n != 4 {
        lemma_other_class_kept(cells, ship_type, row, col, 4);
    }
    assert(lacks_class(cells, n));
    assert(lacks_ship(cells, ship_type));
    assert(lacks_ship(cells, ship_type.opposite()));
    lemma_other_ship_kept(cells, ship_type, row, col, ship_type.opposite());
    assert forall|i: int| 0 <= i < 100 implies ((#[trigger] after[i] == Tile::Ship(ship_type))
        <==> in_footprint(ship_type, row, col, i / 10, i % 10)) by {
        assert(cells[i] != Tile::Ship(ship_type));
    }
    assert(holds_run(after, ship_type, row, col));
    assert(holds_ship(after, ship_type));
    assert(holds_class(after, n));
    assert(untouched(after)) by {
        assert forall|i: int| 0 <= i < 100 implies (#[trigger] after[i]) is Unknown || after[i]
            is Ship by {
            assert(cells[i] is Unknown || cells[i] is Ship);
        }
    }
}

/// A board on which all five classes have been placed is a fleet of
/// seventeen ship cells, with every cell still open.
pub proof fn lemma_fleet_complete(cells: Seq<Tile>)
    requires
        fleet_upto(cells, 5),
    ensures
        is_fleet(cells),
        count_in(cells, is_ship()) == 17,
        count_in(cells, is_open()) == 100,
{
}

/// 1 if a cell of the type is left on the board, else 0.
pub open spec fn kind_left(cells: Seq<Tile>, ship_type: ShipType) -> nat {
    if count_in(cells, is_tile(Tile::Ship(ship_type))) > 0 {
        1
    } else {
        0
    }
}

/// Number of ship types of which a cell is left on the board: the number of
/// ships afloat, as every ship of a fleet has a type of its own.
pub open spec fn kinds_left(cells: Seq<Tile>) -> nat {
    kind_left(cells, ShipType::CarrierHorizontal) + kind_left(cells, ShipType::CarrierVertical)
        + kind_left(cells, ShipType::BattleshipHorizontal) + kind_left(
        cells,
        ShipType::BattleshipVertical,
    ) + kind_left(cells, ShipType::CruiserHorizontal) + kind_left(cells, ShipType::CruiserVertical)
        + kind_left(cells, ShipType::SubmarineHorizontal) + kind_left(
        cells,
        ShipType::SubmarineVertical,
    ) + kind_left(cells, ShipType::DestroyerHorizontal) + kind_left(
        cells,
        ShipType::DestroyerVertical,
    )
}

proof fn lemma_kind_of_ship(cells: Seq<Tile>, ship_type: ShipType)
    requires
        cells.len() == 100,
    ensures
        holds_ship(cells, ship_type) ==> kind_left(cells, ship_type) == 1,
        lacks_ship(cells, ship_type) ==> kind_left(cells, ship_type) == 0,
{
    let p = is_tile(Tile::Ship(ship_type));
    lemma_count_zero(cells, p);
    if holds_ship(cells, ship_type) {
        let (row, col) = choose|row: int, col: int|
            #[trigger] holds_run(cells, ship_type, row, col);
        let i = 10 * row + col;
        assert(in_footprint(ship_type, row, col, i / 10, i % 10));
        assert(p(cells[i]));
    }
    if lacks_ship(cells, ship_type) {
        assert forall|i: int| 0 <= i < 100 implies !p(#[trigger] cells[i]) by {}
    }
}

proof fn lemma_kinds_of_class(cells: Seq<Tile>, class: int)
    requires
        cells.len() == 100,
        holds_class(cells, class),
    ensures
        kind_left(cells, ShipType::of_class(class, ShipOrientation::Horizontal)) + kind_left(
            cells,
            ShipType::of_class(class, ShipOrientation::Vertical),
        ) == 1,
{
    lemma_kind_of_ship(cells, ShipType::of_class(class, ShipOrientation::Horizontal));
    lemma_kind_of_ship(cells, ShipType::of_class(class, ShipOrientation::Vertical));
}

/// On a fleet five ships are afloat.
pub proof fn lemma_fleet_kinds(cells: Seq<Tile>)
    requires
        is_fleet(cells),
    ensures
        kinds_left(cells) == 5,
{
    lemma_kinds_of_class(cells, 0);
    lemma_kinds_of_class(cells, 1);
    lemma_kinds_of_class(cells, 2);
    lemma_kinds_of_class(cells, 3);
    lemma_kinds_of_class(cells, 4);
}

/// No ship is afloat exactly when no cell holds a ship.
pub proof fn lemma_kinds_none(cells: Seq<Tile>)
    requires
        cells.len() == 100,
    ensures
        kinds_left(cells) == 0 <==> no_ship(cells),
        kinds_left(cells) <= 10,
{
    lemma_count_zero(cells, is_tile(Tile::Ship(ShipType::CarrierHorizontal)));
    lemma_count_zero(cells, is_tile(Tile::Ship(ShipType::CarrierVertical)));
    lemma_count_zero(cells, is_tile(Tile::Ship(ShipType::BattleshipHorizontal)));
    lemma_count_zero(cells, is_tile(Tile::Ship(ShipType::BattleshipVertical)));
    lemma_count_zero(cells, is_tile(Tile::Ship(ShipType::CruiserHorizontal)));
    lemma_count_zero(cells, is_tile(Tile::Ship(ShipType::CruiserVertical)));
    lemma_count_zero(cells, is_tile(Tile::Ship(ShipType::SubmarineHorizontal)));
    lemma_count_zero(cells, is_tile(Tile::Ship(ShipType::SubmarineVertical)));
    lemma_count_zero(cells, is_tile(Tile::Ship(ShipType::DestroyerHorizontal)));
    lemma_count_zero(cells, is_tile(Tile::Ship(ShipType::DestroyerVertical)));
    if kinds_left(cells) == 0 {
        assert forall|i: int| 0 <= i < cells.len() implies !(#[trigger] cells[i] is Ship) by {
            if cells[i] is Ship {
                let ship_type = cells[i]->Ship_0;
                assert(is_tile(Tile::Ship(ship_type))(cells[i]));
            }
        }
    }
    if no_ship(cells) {
        assert forall|ship_type: ShipType|
            count_in(cells, #[trigger] is_tile(Tile::Ship(ship_type))) == 0 by {
            lemma_count_zero(cells, is_tile(Tile::Ship(ship_type)));
            assert forall|i: int| 0 <= i < cells.len() implies !is_tile(Tile::Ship(ship_type))(
                #[trigger] cells[i],
            ) by {
                assert(!(cells[i] is Ship));
            }
        }
    }
}

proof fn lemma_attack_kind(cells: Seq<Tile>, position: Position, ship_type: ShipType)
    requires
        cells.len() == 100,
        position.on_board(),
        cells[position.index()].open(),
    ensures
        kind_left(cells_after_attack(cells, position), ship_type) + (if cells[position.index()]
            == Tile::Ship(ship_type) && attack_outcome(cells, position).sunk_a_ship {
            1nat
        } else {
            0nat
        }) == kind_left(cells, ship_type),
{
    let tile = cells[position.index()];
    lemma_count_update(cells, is_tile(Tile::Ship(ship_type)), position.index(), tile.attacked());
}

/// A valid attack takes one from the number of ships afloat if it sinks a
/// ship, and leaves that number as it was if it does not.
pub proof fn lemma_attack_kinds(cells: Seq<Tile>, position: Position)
    requires
        cells.len() == 100,
        position.on_board(),
        cells[position.index()].open(),
    ensures
        kinds_left(cells_after_attack(cells, position)) + (if attack_outcome(
            cells,
            position,
        ).sunk_a_ship {
            1nat
        } else {
            0nat
        }) == kinds_left(cells),
{
    lemma_attack_kind(cells, position, ShipType::CarrierHorizontal);
    lemma_attack_kind(cells, position, ShipType::CarrierVertical);
    lemma_attack_kind(cells, position, ShipType::BattleshipHorizontal);
    lemma_attack_kind(cells, position, ShipType::BattleshipVertical);
    lemma_attack_kind(cells, position, ShipType::CruiserHorizontal);
    lemma_attack_kind(cells, position, ShipType::CruiserVertical);
    lemma_attack_kind(cells, position, ShipType::SubmarineHorizontal);
    lemma_attack_kind(cells, position, ShipType::SubmarineVertical);
    lemma_attack_kind(cells, position, ShipType::DestroyerHorizontal);
    lemma_attack_kind(cells, position, ShipType::DestroyerVertical);
}

/// Number of cells that hold a ship of the type.
pub open spec fn cells_of_type(cells: Seq<Tile>, ship_type: ShipType) -> nat {
    count_in(cells, is_tile(Tile::Ship(ship_type)))
}

/// The ship cells, counted type by type.
pub open spec fn cells_by_type(cells: Seq<Tile>) -> nat {
    cells_of_type(cells, ShipType::CarrierHorizontal) + cells_of_type(
        cells,
        ShipType::CarrierVertical,
    ) + cells_of_type(cells, ShipType::BattleshipHorizontal) + cells_of_type(
        cells,
        ShipType::BattleshipVertical,
    ) + cells_of_type(cells, ShipType::CruiserHorizontal) + cells_of_type(
        cells,
        ShipType::CruiserVertical,
    ) + cells_of_type(cells, ShipType::SubmarineHorizontal) + cells_of_type(
        cells,
        ShipType::SubmarineVertical,
    ) + cells_of_type(cells, ShipType::DestroyerHorizontal) + cells_of_type(
        cells,
        ShipType::DestroyerVertical,
    )
}

/// Every ship cell holds a ship of exactly one type.
pub proof fn lemma_ships_by_type(cells: Seq<Tile>)
    ensures
        count_in(cells, is_ship()) == cells_by_type(cells),
    decreases cells.len(),
{
    if cells.len() > 0 {
        lemma_ships_by_type(cells.drop_last());
    }
}

/// A board that holds one ship of a type, and no further cell of it, holds
/// as many cells of the type as the ship is long.
pub proof fn lemma_run_length(cells: Seq<Tile>, ship_type: ShipType)
    requires
        cells.len() == 100,
        holds_ship(cells, ship_type),
    ensures
        cells_of_type(cells, ship_type) == ship_type.length(),
{
    let (row, col) = choose|row: int, col: int| #[trigger] holds_run(cells, ship_type, row, col);
    let p = is_tile(Tile::Ship(ship_type));
    let water = Seq::new(100, |i: int| Tile::Unknown);
    let alone = with_ship(water, ship_type, row, col);
    lemma_count_zero(water, p);
    lemma_with_ship_upto_count(water, ship_type, row, col, p, ship_type.length());
    assert(with_ship_upto(water, ship_type, row, col, ship_type.length()) =~= alone);
    assert forall|i: int| 0 <= i < 100 implies p(#[trigger] cells[i]) == p(
        #[trigger] alone[i],
    ) by {
        assert((cells[i] == Tile::Ship(ship_type)) <==> in_footprint(
            ship_type,
            row,
            col,
            i / 10,
            i % 10,
        ));
    }
    lemma_count_agree(cells, alone, p);
}

proof fn lemma_class_length(cells: Seq<Tile>, class: int)
    requires
        cells.len() == 100,
        0 <= class < 5,
        holds_class(cells, class),
    ensures
        cells_of_type(cells, ShipType::of_class(class, ShipOrientation::Horizontal))
            + cells_of_type(cells, ShipType::of_class(class, ShipOrientation::Vertical))
            == ShipType::of_class(class, ShipOrientation::Horizontal).length(),
{
    let across = ShipType::of_class(class, ShipOrientation::Horizontal);
    let down = ShipType::of_class(class, ShipOrientation::Vertical);
    lemma_count_zero(cells, is_tile(Tile::Ship(across)));
    lemma_count_zero(cells, is_tile(Tile::Ship(down)));
    if holds_ship(cells, across) && lacks_ship(cells, down) {
        lemma_run_length(cells, across);
        assert forall|i: int| 0 <= i < 100 implies !is_tile(Tile::Ship(down))(
            #[trigger] cells[i],
        ) by {}
    } else {
        lemma_run_length(cells, down);
        assert forall|i: int| 0 <= i < 100 implies !is_tile(Tile::Ship(across))(
            #[trigger] cells[i],
        ) by {}
    }
}

/// Every fleet has seventeen ship cells, and every one of its hundred cells
/// is open to attack.
pub proof fn lemma_fleet_cells(cells: Seq<Tile>)
    requires
        is_fleet(cells),
    ensures
        count_in(cells, is_ship()) == 17,
        count_in(cells, is_open()) == 100,
{
    lemma_ships_by_type(cells);
    lemma_class_length(cells, 0);
    lemma_class_length(cells, 1);
    lemma_class_length(cells, 2);
    lemma_class_length(cells, 3);
    lemma_class_length(cells, 4);
    lemma_count_all(cells, is_open());
    assert forall|i: int| 0 <= i < cells.len() implies is_open()(#[trigger] cells[i]) by {
        assert(cells[i] is Unknown || cells[i] is Ship);
    }
}

/// No two ships of a fleet share a cell: a cell in the footprint of one ship
/// lies in the footprint of no ship of another type.
pub proof fn lemma_fleet_ships_apart(
    cells: Seq<Tile>,
    one: ShipType,
    row_one: int,
    col_one: int,
    other: ShipType,
    row_other: int,
    col_other: int,
)
    requires
        cells.len() == 100,
        holds_run(cells, one, row_one, col_one),
        holds_run(cells, other, row_other, col_other),
        one != other,
    ensures
        forall|y: int, x: int|
            0 <= y < 10 && 0 <= x < 10 ==> !(#[trigger] in_footprint(one, row_one, col_one, y, x)
                && in_footprint(other, row_other, col_other, y, x)),
{
    assert forall|y: int, x: int| 0 <= y < 10 && 0 <= x < 10 implies !(#[trigger] in_footprint(
        one,
        row_one,
        col_one,
        y,
        x,
    ) && in_footprint(other, row_other, col_other, y, x)) by {
        let i = 10 * y + x;
        assert(i / 10 == y && i % 10 == x);
        assert((cells[i] == Tile::Ship(one)) <==> in_footprint(one, row_one, col_one, y, x));
        assert((cells[i] == Tile::Ship(other)) <==> in_footprint(
            other,
            row_other,
            col_other,
            y,
            x,
        ));
    }
}

/// A board in play: what has become of a fleet after some attacks.  Every
/// cell is as the fleet had it, or shows the attack on what the fleet had
/// there: a hit where a ship was, a miss where water was.
pub open spec fn in_play(fleet: Seq<Tile>, cells: Seq<Tile>) -> bool {
    &&& is_fleet(fleet)
    &&& cells.len() == 100
    &&& forall|i: int|
        0 <= i < 100 ==> #[trigger] cells[i] == fleet[i] || cells[i] == fleet[i].attacked()
}

/// A fleet is in play, and an attack on a board in play leaves it in play:
/// water turns into a miss, a ship cell into a hit, and a cell once attacked
/// never changes again.
pub proof fn lemma_attack_keeps_play(fleet: Seq<Tile>, cells: Seq<Tile>, position: Position)
    requires
        in_play(fleet, cells),
        position.on_board(),
    ensures
        in_play(fleet, fleet),
        in_play(fleet, cells_after_attack(cells, position)),
        !cells[position.index()].open() ==> cells_after_attack(cells, position) == cells,
{
    let after = cells_after_attack(cells, position);
    assert forall|i: int| 0 <= i < 100 implies #[trigger] after[i] == fleet[i] || after[i]
        == fleet[i].attacked() by {
        assert(cells[i] == fleet[i] || cells[i] == fleet[i].attacked());
        assert(fleet[i] is Unknown || fleet[i] is Ship);
    }
}

} // verus!
