//! Hunting by chance, and targeting the cells next to a hit.
use vstd::prelude::*;

use crate::board::GameBoard;
use crate::game::computer::{neighbours, usable, AttackStrategy};
use crate::game::{attack_outcome, process_attack};
use crate::position::Position;
use crate::tile::Tile;

verus! {

/// The first of the candidates, in their order, that is a cell of the board
/// open to attack.
pub open spec fn first_usable(cells: Seq<Tile>, candidates: Seq<Position>) -> Option<Position>
    decreases candidates.len(),
{
    if candidates.len() == 0 {
        None
    } else if usable(cells, candidates[0]) {
        Some(candidates[0])
    } else {
        first_usable(cells, candidates.drop_first())
    }
}

/// The lead that the remembered hits give: for the first hit, in the order
/// in which they were remembered, that has an open cell next to it, the
/// first such cell in the order above, below, left, right.
pub open spec fn first_lead(cells: Seq<Tile>, hits: Seq<Position>) -> Option<Position>
    decreases hits.len(),
{
    if hits.len() == 0 {
        None
    } else {
        match first_usable(cells, neighbours(hits[0])) {
            Some(lead) => Some(lead),
            None => first_lead(cells, hits.drop_first()),
        }
    }
}

/// The first usable candidate is usable and stands before every other
/// usable candidate; there is none exactly when no candidate is usable.
pub proof fn lemma_first_usable(cells: Seq<Tile>, candidates: Seq<Position>)
    ensures
        match first_usable(cells, candidates) {
            Some(first) => exists|j: int|
                0 <= j < candidates.len() && #[trigger] candidates[j] == first && usable(
                    cells,
                    first,
                ) && forall|i: int| 0 <= i < j ==> !usable(cells, #[trigger] candidates[i]),
            None => forall|j: int|
                0 <= j < candidates.len() ==> !usable(cells, #[trigger] candidates[j]),
        },
    decreases candidates.len(),
{
    if candidates.len() > 0 {
        if usable(cells, candidates[0]) {
            assert(candidates[0] == candidates[0]);
        } else {
            let rest = candidates.drop_first();
            lemma_first_usable(cells, rest);
            match first_usable(cells, rest) {
                Some(first) => {
                    let j = choose|j: int|
                        0 <= j < rest.len() && #[trigger] rest[j] == first && usable(cells, first)
                            && forall|i: int| 0 <= i < j ==> !usable(cells, #[trigger] rest[i]);
                    assert(candidates[j + 1] == first);
                    assert forall|i: int| 0 <= i < j + 1 implies !usable(
                        cells,
                        #[trigger] candidates[i],
                    ) by {
                        if i > 0 {
                            assert(rest[i - 1] == candidates[i]);
                        }
                    }
                },
                None => {
                    assert forall|j: int| 0 <= j < candidates.len() implies !usable(
                        cells,
                        #[trigger] candidates[j],
                    ) by {
                        if j > 0 {
                            assert(rest[j - 1] == candidates[j]);
                        }
                    }
                },
            }
        }
    }
}

/// A lead lies next to a remembered hit and is open to attack; and the
/// strategy is without a lead, and turns to chance, only when no cell next
/// to any remembered hit is open to attack.
pub proof fn lemma_lead_is_next_to_a_hit(cells: Seq<Tile>, hits: Seq<Position>)
    ensures
        match first_lead(cells, hits) {
            Some(lead) => usable(cells, lead) && exists|k: int, j: int|
                0 <= k < hits.len() && 0 <= j < 4 && #[trigger] neighbours(hits[k])[j] == lead,
            None => forall|k: int, j: int|
                0 <= k < hits.len() && 0 <= j < 4 ==> !usable(
                    cells,
                    #[trigger] neighbours(hits[k])[j],
                ),
        },
    decreases hits.len(),
{
    if hits.len() > 0 {
        let around = neighbours(hits[0]);
        lemma_first_usable(cells, around);
        match first_usable(cells, around) {
            Some(lead) => {
                let j = choose|j: int| 0 <= j < around.len() && #[trigger] around[j] == lead;
                assert(neighbours(hits[0])[j] == lead);
            },
            None => {
                let rest = hits.drop_first();
                lemma_lead_is_next_to_a_hit(cells, rest);
                match first_lead(cells, rest) {
                    Some(lead) => {
                        let (k, j) = choose|k: int, j: int|
                            0 <= k < rest.len() && 0 <= j < 4 && #[trigger] neighbours(rest[k])[j]
                                == lead;
                        assert(rest[k] == hits[k + 1]);
                        assert(neighbours(hits[k + 1])[j] == lead);
                    },
                    None => {
                        assert forall|k: int, j: int|
                            0 <= k < hits.len() && 0 <= j < 4 implies !usable(
                            cells,
                            #[trigger] neighbours(hits[k])[j],
                        ) by {
                            if k > 0 {
                                assert(rest[k - 1] == hits[k]);
                                assert(!usable(cells, neighbours(rest[k - 1])[j]));
                            }
                        }
                    },
                }
            },
        }
    }
}

/// The predicate "the board does not show `tile` here".
pub open spec fn off_tile(cells: Seq<Tile>, tile: Tile) -> spec_fn(Position) -> bool {
    |hit: Position| cells[hit.index()] != tile
}

/// The memory after a lead was followed.  A lead on water changes nothing.
/// A lead on a ship is remembered; and if the attack on it will sink that
/// ship, every remembered position at which the board still shows the ship's
/// tile is forgotten.
pub open spec fn hits_after_lead(cells: Seq<Tile>, hits: Seq<Position>, lead: Position) -> Seq<
    Position,
> {
    let tile = cells[lead.index()];
    if tile is Ship {
        if attack_outcome(cells, lead).sunk_a_ship {
            hits.push(lead).filter(off_tile(cells, tile))
        } else {
            hits.push(lead)
        }
    } else {
        hits
    }
}

/// The memory after a cell was picked by chance: a pick on a ship is
/// remembered.
pub open spec fn hits_after_pick(cells: Seq<Tile>, hits: Seq<Position>, pick: Position) -> Seq<
    Position,
> {
    if cells[pick.index()] is Ship {
        hits.push(pick)
    } else {
        hits
    }
}

/// What one attack of the strategy does: with a lead it attacks the lead,
/// without one any cell open to attack; `before` and `after` are what it
/// remembers before and after.
pub open spec fn attack_follows(
    cells: Seq<Tile>,
    before: Seq<Position>,
    after: Seq<Position>,
    target: Position,
) -> bool {
    match first_lead(cells, before) {
        Some(lead) => target == lead && after == hits_after_lead(cells, before, lead),
        None => usable(cells, target) && after == hits_after_pick(cells, before, target),
    }
}

/// Hunts by chance until it finds a ship, then attacks the cells next to
/// what it found.  It remembers the positions at which it found a ship.
pub struct HuntAndTargetAttackStrategy {
    previous_attack_hits: Vec<Position>,
}

impl HuntAndTargetAttackStrategy {
    /// The remembered positions, oldest first.
    pub closed spec fn hits(&self) -> Seq<Position> {
        self.previous_attack_hits@
    }

    /// A strategy that remembers nothing yet.
    pub fn new() -> (strategy: Self)
        ensures
            strategy.hits() == Seq::<Position>::empty(),
            strategy.well_formed(),
    {
        Self { previous_attack_hits: Vec::new() }
    }

    /// The remembered positions, oldest first.
    pub fn remembered_hits(&self) -> (hits: Vec<Position>)
        ensures
            hits@ == self.hits(),
    {
        self.previous_attack_hits.clone()
    }

    /// Whether an attack at `position` would sink a ship.  The board is a
    /// copy: nothing is recorded on it.
    pub fn simulate_attack_result(&mut self, enemy_board: GameBoard, position: Position) -> (sunk:
        bool)
        requires
            position.on_board(),
        ensures
            sunk == attack_outcome(enemy_board@, position).sunk_a_ship,
            final(self).hits() == old(self).hits(),
    {
        let feedback = process_attack(enemy_board, position);

        feedback.sunk_a_ship
    }

    /// Forgets every remembered position at which the board shows
    /// `sunk_ship_tile`.
    pub fn remove_hits_from_previous_attack_on_sink(
        &mut self,
        enemy_board: &GameBoard,
        sunk_ship_tile: Tile,
    )
        requires
            old(self).well_formed(),
        ensures
            final(self).well_formed(),
            final(self).hits() == old(self).hits().filter(off_tile(enemy_board@, sunk_ship_tile)),
    {
        let ghost hits = self.previous_attack_hits@;
        let ghost keep = off_tile(enemy_board@, sunk_ship_tile);
        let mut kept: Vec<Position> = Vec::new();
        let mut i: usize = 0;
        assert(hits == self.hits());
        assert(hits.take(0).filter(keep) =~= Seq::<Position>::empty()) by {
            reveal(Seq::filter);
        }
        while i < self.previous_attack_hits.len()
            invariant
                i <= hits.len(),
                hits == self.previous_attack_hits@,
                keep == off_tile(enemy_board@, sunk_ship_tile),
                forall|k: int| 0 <= k < hits.len() ==> (#[trigger] hits[k]).on_board(),
                forall|k: int| 0 <= k < kept.len() ==> (#[trigger] kept[k]).on_board(),
                kept@ == hits.take(i as int).filter(keep),
            decreases hits.len() - i,
        {
            let position = self.previous_attack_hits[i];
            proof {
                reveal(Seq::filter);
                assert(hits.take(i + 1).drop_last() =~= hits.take(i as int));
            }
            if enemy_board.get_tile_at_position(position) != sunk_ship_tile {
                kept.push(position);
            }
            i += 1;
        }
        assert(hits.take(hits.len() as int) =~= hits);
        self.previous_attack_hits = kept;
    }

    /// Follows the lead that the remembered hits give, if there is one: see
    /// [`first_lead`] for the lead and [`hits_after_lead`] for what is
    /// remembered afterwards.  Without a lead nothing changes.
    pub fn follow_lead(&mut self, enemy_board: &GameBoard) -> (lead: Option<Position>)
        requires
            old(self).well_formed(),
        ensures
            final(self).well_formed(),
            lead == first_lead(enemy_board@, old(self).hits()),
            match lead {
                Some(target) => usable(enemy_board@, target) && final(self).hits()
                    == hits_after_lead(enemy_board@, old(self).hits(), target),
                None => final(self).hits() == old(self).hits(),
            },
    {
        let ghost cells = enemy_board@;
        let ghost hits = self.previous_attack_hits@;
        let mut i: usize = 0;
        assert(hits.skip(0) =~= hits);
        while i < self.previous_attack_hits.len()
            invariant
                i <= hits.len(),
                cells == enemy_board@,
                hits == self.previous_attack_hits@,
                hits == old(self).previous_attack_hits@,
                forall|k: int| 0 <= k < hits.len() ==> (#[trigger] hits[k]).on_board(),
                first_lead(cells, hits) == first_lead(cells, hits.skip(i as int)),
            decreases hits.len() - i,
        {
            let previous_position = self.previous_attack_hits[i];
            let adjacent_positions = self.get_adjacent_positions(previous_position);
            let ghost around = neighbours(previous_position);
            assert(hits.skip(i as int)[0] == previous_position);
            assert(hits.skip(i as int).drop_first() =~= hits.skip(i + 1));
            assert(around.skip(0) =~= around);
            let mut j: usize = 0;
            while j < adjacent_positions.len()
                invariant
                    j <= 4,
                    i < hits.len(),
                    cells == enemy_board@,
                    hits == self.previous_attack_hits@,
                    hits == old(self).previous_attack_hits@,
                    forall|k: int| 0 <= k < hits.len() ==> (#[trigger] hits[k]).on_board(),
                    adjacent_positions@ == around,
                    around == neighbours(previous_position),
                    hits.skip(i as int)[0] == previous_position,
                    first_lead(cells, hits) == first_lead(cells, hits.skip(i as int)),
                    first_usable(cells, around) == first_usable(cells, around.skip(j as int)),
                decreases 4 - j,
            {
                let adjacent_position = adjacent_positions[j];
                assert(around.skip(j as int)[0] == adjacent_position);
                assert(around.skip(j as int).drop_first() =~= around.skip(j + 1));
                if adjacent_position.is_on_board() {
                    match enemy_board.get_tile_at_position(adjacent_position) {
                        Tile::Unknown => {
                            return Some(adjacent_position);
                        },
                        Tile::Ship(ship) => {
                            self.previous_attack_hits.push(adjacent_position);
                            if self.simulate_attack_result(*enemy_board, adjacent_position) {
                                self.remove_hits_from_previous_attack_on_sink(
                                    enemy_board,
                                    Tile::Ship(ship),
                                );
                            }
                            return Some(adjacent_position);
                        },
                        _ => (),
                    }
                }
                j += 1;
            }
            assert(around.skip(4) =~= Seq::<Position>::empty());
            i += 1;
        }
        assert(hits.skip(hits.len() as int) =~= Seq::<Position>::empty());
        None
    }

    /// Takes note of a cell that was picked by chance: a pick on a ship is
    /// remembered, see [`hits_after_pick`].
    pub fn note_random_pick(&mut self, enemy_board: &GameBoard, position: Position)
        requires
            old(self).well_formed(),
            position.on_board(),
        ensures
            final(self).well_formed(),
            final(self).hits() == hits_after_pick(enemy_board@, old(self).hits(), position),
    {
        assert(self.hits() == self.previous_attack_hits@);
        match enemy_board.get_tile_at_position(position) {
            Tile::Ship(_) => {
                self.previous_attack_hits.push(position);
                assert forall|k: int| 0 <= k < self.hits().len() implies (
                #[trigger] self.hits()[k]).on_board() by {
                    if k < old(self).hits().len() {
                        assert(old(self).hits()[k].on_board());
                    }
                }
            },
            _ => (),
        }
    }
}

impl AttackStrategy for HuntAndTargetAttackStrategy {
    /// Every remembered position is a cell of the board.
    open spec fn well_formed(&self) -> bool {
        forall|k: int| 0 <= k < self.hits().len() ==> (#[trigger] self.hits()[k]).on_board()
    }

    /// Forgets every remembered position.
    fn reset(&mut self)
        ensures
            final(self).hits() == Seq::<Position>::empty(),
    {
        self.previous_attack_hits = Vec::new();
    }

    /// Follows the lead that the remembered hits give; without a lead, picks
    /// a cell by chance among those open to attack.
    fn calculate_best_attack(&mut self, enemy_board: &GameBoard) -> (target: Position)
        ensures
            attack_follows(enemy_board@, old(self).hits(), final(self).hits(), target),
    {
        match self.follow_lead(enemy_board) {
            Some(lead) => lead,
            None => {
                proof {
                    let i = choose|i: int| 0 <= i < 100 && (#[trigger] enemy_board@[i]) is Ship;
                    assert(enemy_board@[i].open());
                }
                let position = self.get_random_position(enemy_board);
                self.note_random_pick(enemy_board, position);
                position
            },
        }
    }
}

} // verus!
