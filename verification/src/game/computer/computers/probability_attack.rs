//! Scoring every open cell and attacking the best.
use vstd::prelude::*;

use crate::board::GameBoard;
use crate::game::computer::{neighbours, usable, AttackStrategy};
use crate::game::{attack_outcome, process_attack};
use crate::position::Position;
use crate::tile::Tile;

verus! {

/// What lying near the centre is worth: five less the number of steps to
/// cell (4, 4), and nothing from five steps on.
pub open spec fn centre_bonus(position: Position) -> int {
    let across = if position.x >= 4 {
        position.x - 4
    } else {
        4 - position.x
    };
    let down = if position.y >= 4 {
        position.y - 4
    } else {
        4 - position.y
    };
    if across + down < 5 {
        5 - (across + down)
    } else {
        0
    }
}

/// What one neighbour is worth: a hit next door adds 20, a miss takes 2
/// away, anything else and a place off the board count nothing.
pub open spec fn neighbour_bonus(cells: Seq<Tile>, neighbour: Position) -> int {
    if neighbour.on_board() {
        match cells[neighbour.index()] {
            Tile::Miss => -2,
            Tile::Hit => 20,
            _ => 0,
        }
    } else {
        0
    }
}

/// One point for each of the four directions in which the cell `smallest`
/// steps away is still on the board.
pub open spec fn room_bonus(position: Position, smallest: int) -> int {
    (if position.x + smallest < 10 {
        1int
    } else {
        0int
    }) + (if position.x - smallest >= 0 {
        1int
    } else {
        0int
    }) + (if position.y + smallest < 10 {
        1int
    } else {
        0int
    }) + (if position.y - smallest >= 0 {
        1int
    } else {
        0int
    })
}

/// The cell is dead: none of the four places next to it is a cell of the
/// board that is open to attack.
pub open spec fn dead(cells: Seq<Tile>, position: Position) -> bool {
    forall|k: int| 0 <= k < 4 ==> !usable(cells, #[trigger] neighbours(position)[k])
}

/// The score of a cell of the board.
///
/// A cell that shows a hit or a miss scores 0.  Any other cell starts at 1,
/// gains the [`centre_bonus`], the [`neighbour_bonus`] of each of its four
/// neighbours and the [`room_bonus`], and loses 30 if it is [`dead`].
pub open spec fn score(cells: Seq<Tile>, position: Position, smallest: int) -> int {
    if cells[position.index()].resolved() {
        0
    } else {
        let around = neighbours(position);
        1 + centre_bonus(position) + neighbour_bonus(cells, around[0]) + neighbour_bonus(
            cells,
            around[1],
        ) + neighbour_bonus(cells, around[2]) + neighbour_bonus(cells, around[3]) + room_bonus(
            position,
            smallest,
        ) - if dead(cells, position) {
            30int
        } else {
            0int
        }
    }
}

/// `target` is the best attack: it is open, no open cell scores higher, and
/// every open cell before it in row-by-row order scores lower.
pub open spec fn is_best(cells: Seq<Tile>, smallest: int, target: Position) -> bool {
    &&& usable(cells, target)
    &&& forall|i: int|
        0 <= i < 100 && (#[trigger] cells[i]).open() ==> score(
            cells,
            Position::at_index(i),
            smallest,
        ) <= score(cells, target, smallest)
    &&& forall|i: int|
        0 <= i < target.index() && (#[trigger] cells[i]).open() ==> score(
            cells,
            Position::at_index(i),
            smallest,
        ) < score(cells, target, smallest)
}

/// Scores every open cell by what surrounds it and attacks the best.  It
/// remembers the ships it sank and the length of the smallest of them.
pub struct ProbabilityAttackStrategy {
    sunk_ships: Vec<Tile>,
    smallest_ship_length: i8,
}

impl ProbabilityAttackStrategy {
    /// The tiles of the ships sunk so far, oldest first.
    pub closed spec fn sunk(&self) -> Seq<Tile> {
        self.sunk_ships@
    }

    /// The length that the [`room_bonus`] is computed with.
    pub closed spec fn smallest(&self) -> int {
        self.smallest_ship_length as int
    }

    /// A strategy that has sunk nothing yet; it reckons with a smallest ship
    /// of two cells.
    pub fn new() -> (strategy: Self)
        ensures
            strategy.sunk() == Seq::<Tile>::empty(),
            strategy.smallest() == 2,
            strategy.well_formed(),
    {
        Self { sunk_ships: Vec::new(), smallest_ship_length: 2 }
    }

    /// The tiles of the ships sunk so far, oldest first.
    pub fn sunk_ships(&self) -> (sunk: Vec<Tile>)
        ensures
            sunk@ == self.sunk(),
    {
        self.sunk_ships.clone()
    }

    /// The length that the room bonus is computed with.
    pub fn smallest_ship_length(&self) -> (smallest: i8)
        ensures
            smallest == self.smallest(),
    {
        self.smallest_ship_length
    }

    /// Whether the cell is [`dead`].  The coordinates of `position` must
    /// leave room for a step either way.
    pub fn position_is_surrounded_by_sunk_ships(
        &self,
        enemy_board: &GameBoard,
        position: Position,
    ) -> (surrounded: bool)
        requires
            -128 < position.y < 127,
            -128 < position.x < 127,
        ensures
            surrounded == dead(enemy_board@, position),
    {
        let adjacent_positions = self.get_adjacent_positions(position);
        let mut k: usize = 0;
        while k < adjacent_positions.len()
            invariant
                k <= 4,
                adjacent_positions@ == neighbours(position),
                forall|j: int|
                    0 <= j < k ==> !usable(enemy_board@, #[trigger] neighbours(position)[j]),
            decreases 4 - k,
        {
            let adjacent_position = adjacent_positions[k];
            if adjacent_position.is_on_board() {
                match enemy_board.get_tile_at_position(adjacent_position) {
                    Tile::Unknown | Tile::Ship(_) => {
                        assert(usable(enemy_board@, neighbours(position)[k as int]));
                        return false;
                    },
                    _ => (),
                }
            }
            k += 1;
        }
        true
    }

    /// Remembers a sunk ship.
    pub fn add_sunk_ship(&mut self, tile: Tile)
        ensures
            final(self).sunk() == old(self).sunk().push(tile),
            final(self).smallest() == old(self).smallest(),
    {
        self.sunk_ships.push(tile);
    }

    /// Lowers the smallest length to that of `sunk_ship`, if that is a ship
    /// and shorter.
    pub fn update_smallest_ship_on_board(&mut self, sunk_ship: Tile)
        requires
            old(self).well_formed(),
        ensures
            final(self).well_formed(),
            final(self).sunk() == old(self).sunk(),
            final(self).smallest() == smallest_after(old(self).smallest(), sunk_ship),
    {
        match sunk_ship {
            Tile::Ship(ship) => {
                if ship.get_ship_length() < self.smallest_ship_length as u8 {
                    self.smallest_ship_length = ship.get_ship_length() as i8;
                }
            },
            _ => (),
        }
    }

    /// The [`score`] of a cell of the board.
    pub fn calculate_probability(
        &self,
        enemy_board: &GameBoard,
        position: Position,
    ) -> (probability: i32)
        requires
            self.well_formed(),
            position.on_board(),
        ensures
            probability == score(enemy_board@, position, self.smallest()),
    {
        let mut probability: i32 = 1;

        let tile = enemy_board.get_tile_at_position(position);
        if tile == Tile::Hit || tile == Tile::Miss {
            return 0;
        }
        let center_position = Position::new(4, 4);

        let across = if position.get_x() >= center_position.get_x() {
            position.get_x() - center_position.get_x()
        } else {
            center_position.get_x() - position.get_x()
        };
        let down = if position.get_y() >= center_position.get_y() {
            position.get_y() - center_position.get_y()
        } else {
            center_position.get_y() - position.get_y()
        };
        let distance_from_center = across + down;

        if distance_from_center < 5 {
            probability += 5 - distance_from_center as i32;
        }
        let adjacent_positions = self.get_adjacent_positions(position);
        let ghost around = neighbours(position);
        let ghost base = probability as int;
        let mut k: usize = 0;
        while k < adjacent_positions.len()
            invariant
                k <= 4,
                adjacent_positions@ == around,
                around.len() == 4,
                base == 1 + centre_bonus(position),
                probability == base + (if k > 0 {
                    neighbour_bonus(enemy_board@, around[0])
                } else {
                    0
                }) + (if k > 1 {
                    neighbour_bonus(enemy_board@, around[1])
                } else {
                    0
                }) + (if k > 2 {
                    neighbour_bonus(enemy_board@, around[2])
                } else {
                    0
                }) + (if k > 3 {
                    neighbour_bonus(enemy_board@, around[3])
                } else {
                    0
                }),
            decreases 4 - k,
        {
            let adjacent_position = adjacent_positions[k];
            if adjacent_position.is_on_board() {
                match enemy_board.get_tile_at_position(adjacent_position) {
                    Tile::Miss => {
                        probability -= 2;
                    },
                    Tile::Hit => {
                        probability += 20;
                    },
                    _ => (),
                }
            }
            k += 1;
        }

        if position.get_x() + self.smallest_ship_length < 10 {
            probability += 1;
        }
        if position.get_x() - self.smallest_ship_length >= 0 {
            probability += 1;
        }
        if position.get_y() + self.smallest_ship_length < 10 {
            probability += 1;
        }
        if position.get_y() - self.smallest_ship_length >= 0 {
            probability += 1;
        }
        if self.position_is_surrounded_by_sunk_ships(enemy_board, position) {
            probability -= 30;
        }
        probability
    }

    /// The best attack on the board, which must have a cell open to attack:
    /// see [`is_best`].
    pub fn best_position(&self, enemy_board: &GameBoard) -> (target: Position)
        requires
            self.well_formed(),
            enemy_board.has_open_cell(),
        ensures
            is_best(enemy_board@, self.smallest(), target),
    {
        let ghost cells = enemy_board@;
        let ghost smallest = self.smallest();
        let mut highest_probability_position = Position::new(0, 0);
        let mut highest_probability: i32 = 0;
        let mut found = false;
        let mut i: usize = 0;
        while i < 100
            invariant
                i <= 100,
                cells == enemy_board@,
                smallest == self.smallest(),
                self.well_formed(),
                !found ==> forall|j: int| 0 <= j < i ==> !(#[trigger] cells[j]).open(),
                found ==> {
                    &&& usable(cells, highest_probability_position)
                    &&& highest_probability_position.index() < i
                    &&& highest_probability == score(cells, highest_probability_position, smallest)
                    &&& forall|j: int|
                        0 <= j < i && (#[trigger] cells[j]).open() ==> score(
                            cells,
                            Position::at_index(j),
                            smallest,
                        ) <= highest_probability
                    &&& forall|j: int|
                        0 <= j < highest_probability_position.index() && (
                        #[trigger] cells[j]).open() ==> score(
                            cells,
                            Position::at_index(j),
                            smallest,
                        ) < highest_probability
                },
            decreases 100 - i,
        {
            let position = Position::new((i / 10) as i8, (i % 10) as i8);
            assert(position == Position::at_index(i as int));
            match enemy_board.get_tile_at_position(position) {
                Tile::Unknown | Tile::Ship(_) => {
                    let probability = self.calculate_probability(enemy_board, position);

                    if !found || probability > highest_probability {
                        highest_probability = probability;
                        highest_probability_position = position;
                        found = true;
                    }
                },
                _ => (),
            }
            i += 1;
        }
        highest_probability_position
    }
}

/// The smallest length after a ship was sunk: the ship's length if that is
/// smaller, else what it was.
pub open spec fn smallest_after(smallest: int, sunk_ship: Tile) -> int {
    match sunk_ship {
        Tile::Ship(ship) => if ship.length() < smallest {
            ship.length()
        } else {
            smallest
        },
        _ => smallest,
    }
}

/// What the strategy remembers after an attack at `target`: if the attack
/// will sink a ship, the ship's tile is added to the sunk ships and the
/// smallest length lowered to its length; if not, nothing changes.
pub open spec fn memory_after(
    cells: Seq<Tile>,
    sunk: Seq<Tile>,
    smallest: int,
    target: Position,
) -> (Seq<Tile>, int) {
    let tile = cells[target.index()];
    if attack_outcome(cells, target).sunk_a_ship {
        (sunk.push(tile), smallest_after(smallest, tile))
    } else {
        (sunk, smallest)
    }
}

impl AttackStrategy for ProbabilityAttackStrategy {
    /// The smallest length is that of a ship: between 2 and 5.
    open spec fn well_formed(&self) -> bool {
        2 <= self.smallest() <= 5
    }

    /// Forgets the sunk ships and reckons with a smallest ship of two cells
    /// again.
    fn reset(&mut self)
        ensures
            final(self).sunk() == Seq::<Tile>::empty(),
            final(self).smallest() == 2,
    {
        self.sunk_ships = Vec::new();
        self.smallest_ship_length = 2;
    }

    /// Picks the best attack, see [`is_best`].  If that attack will sink a
    /// ship, the ship is remembered and the smallest length lowered to its
    /// length.
    fn calculate_best_attack(&mut self, enemy_board: &GameBoard) -> (target: Position)
        ensures
            is_best(enemy_board@, old(self).smallest(), target),
            (final(self).sunk(), final(self).smallest()) == memory_after(
                enemy_board@,
                old(self).sunk(),
                old(self).smallest(),
                target,
            ),
    {
        proof {
            let i = choose|i: int| 0 <= i < 100 && (#[trigger] enemy_board@[i]) is Ship;
            assert(enemy_board@[i].open());
        }
        let highest_probability_position = self.best_position(enemy_board);

        let simulated_attack_result = process_attack(*enemy_board, highest_probability_position);

        if simulated_attack_result.sunk_a_ship {
            self.add_sunk_ship(simulated_attack_result.tile_at_attack);
            self.update_smallest_ship_on_board(simulated_attack_result.tile_at_attack);
        }
        highest_probability_position
    }
}

} // verus!
