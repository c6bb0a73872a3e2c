//! The strategies, and the choice among them.
use vstd::prelude::*;

use crate::board::GameBoard;
use crate::config::{ComputerAttackStrategy, Difficulty};
use crate::game::computer::computers::hunt_and_target::{
    attack_follows, HuntAndTargetAttackStrategy,
};
use crate::game::computer::computers::probability_attack::{
    is_best, memory_after, ProbabilityAttackStrategy,
};
use crate::game::computer::computers::random_attack::RandomAttackStrategy;
use crate::game::computer::AttackStrategy;
use crate::position::Position;
use crate::tile::Tile;

pub mod hacker;
pub mod hunt_and_target;
pub mod probability_attack;
pub mod random_attack;

verus! {

/// One of the three strategies that a game can be set up with, holding that
/// strategy's memory.
pub enum ChosenStrategy {
    Random(RandomAttackStrategy),
    HuntAndTarget(HuntAndTargetAttackStrategy),
    Probability(ProbabilityAttackStrategy),
}

impl ChosenStrategy {
    /// The strategy of the given name, with a fresh memory.
    pub fn by_name(name: ComputerAttackStrategy) -> (strategy: Self)
        ensures
            strategy.well_formed(),
            strategy.name() == name,
    {
        match name {
            ComputerAttackStrategy::Random => ChosenStrategy::Random(RandomAttackStrategy),
            ComputerAttackStrategy::HuntAndTarget => ChosenStrategy::HuntAndTarget(
                HuntAndTargetAttackStrategy::new(),
            ),
            ComputerAttackStrategy::Probability => ChosenStrategy::Probability(
                ProbabilityAttackStrategy::new(),
            ),
        }
    }

    /// The strategy that the computer plays a human with: random on easy,
    /// hunt and target on medium, probability on hard.
    pub fn by_difficulty(difficulty: Difficulty) -> (strategy: Self)
        ensures
            strategy.well_formed(),
            strategy.name() == match difficulty {
                Difficulty::Easy => ComputerAttackStrategy::Random,
                Difficulty::Medium => ComputerAttackStrategy::HuntAndTarget,
                Difficulty::Hard => ComputerAttackStrategy::Probability,
            },
    {
        match difficulty {
            Difficulty::Easy => ChosenStrategy::by_name(ComputerAttackStrategy::Random),
            Difficulty::Medium => ChosenStrategy::by_name(ComputerAttackStrategy::HuntAndTarget),
            Difficulty::Hard => ChosenStrategy::by_name(ComputerAttackStrategy::Probability),
        }
    }

    /// The name of the strategy held.
    pub open spec fn name(&self) -> ComputerAttackStrategy {
        match self {
            ChosenStrategy::Random(_) => ComputerAttackStrategy::Random,
            ChosenStrategy::HuntAndTarget(_) => ComputerAttackStrategy::HuntAndTarget,
            ChosenStrategy::Probability(_) => ComputerAttackStrategy::Probability,
        }
    }
}

impl AttackStrategy for ChosenStrategy {
    open spec fn well_formed(&self) -> bool {
        match self {
            ChosenStrategy::Random(strategy) => strategy.well_formed(),
            ChosenStrategy::HuntAndTarget(strategy) => strategy.well_formed(),
            ChosenStrategy::Probability(strategy) => strategy.well_formed(),
        }
    }

    /// Clears the memory of the strategy held.
    fn reset(&mut self)
        ensures
            final(self).name() == old(self).name(),
            match *final(self) {
                ChosenStrategy::Random(_) => true,
                ChosenStrategy::HuntAndTarget(strategy) => strategy.hits() == Seq::<
                    Position,
                >::empty(),
                ChosenStrategy::Probability(strategy) => strategy.sunk() == Seq::<Tile>::empty()
                    && strategy.smallest() == 2,
            },
    {
        match self {
            ChosenStrategy::Random(strategy) => strategy.reset(),
            ChosenStrategy::HuntAndTarget(strategy) => strategy.reset(),
            ChosenStrategy::Probability(strategy) => strategy.reset(),
        }
    }

    /// Lets the strategy held pick the attack, and keeps what that strategy
    /// remembers.
    fn calculate_best_attack(&mut self, enemy_board: &GameBoard) -> (target: Position)
        ensures
            match *old(self) {
                ChosenStrategy::Random(_) => *final(self) is Random,
                ChosenStrategy::HuntAndTarget(before) => {
                    &&& *final(self) is HuntAndTarget
                    &&& attack_follows(
                        enemy_board@,
                        before.hits(),
                        (*final(self))->HuntAndTarget_0.hits(),
                        target,
                    )
                },
                ChosenStrategy::Probability(before) => {
                    &&& *final(self) is Probability
                    &&& is_best(enemy_board@, before.smallest(), target)
                    &&& ({
                        let after = (*final(self))->Probability_0;
                        (after.sunk(), after.smallest()) == memory_after(
                            enemy_board@,
                            before.sunk(),
                            before.smallest(),
                            target,
                        )
                    })
                },
            },
    {
        match self {
            ChosenStrategy::Random(strategy) => strategy.calculate_best_attack(enemy_board),
            ChosenStrategy::HuntAndTarget(strategy) => strategy.calculate_best_attack(enemy_board),
            ChosenStrategy::Probability(strategy) => strategy.calculate_best_attack(enemy_board),
        }
    }
}

} // verus!
