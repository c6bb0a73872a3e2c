//! Games between two computers, and the tally of many of them.
use vstd::prelude::*;

use crate::board::{is_open, is_ship, no_ship, GameBoard};
use crate::config::{ComputerAttackStrategy, SimulationConfig};
use crate::fleet::{
    is_fleet, kinds_left, lemma_attack_kinds, lemma_fleet_cells, lemma_fleet_kinds,
    lemma_kinds_none,
};
use crate::game::computer::computers::ChosenStrategy;
use crate::game::computer::{usable, AttackStrategy, Computer};
use crate::game::{
    attack_outcome, cells_after_attack, lemma_attack_counts, resolve_attack, AttackFeedback,
};
use crate::position::Position;
use crate::tally::{count_in, lemma_count_bound, lemma_count_zero};
use crate::tile::Tile;

verus! {

/// What one side did in one game.
#[derive(Debug, PartialEq, Eq, Clone, Copy, Structural)]
pub struct ComputerStats {
    pub hits: u32,
    pub misses: u32,
    pub ships_sunk: u32,
    pub shots_fired: u32,
}

/// One of the two sides of a simulated game.
#[derive(Debug, PartialEq, Eq, Clone, Copy, Structural)]
pub enum ComputerPlayer {
    ComputerOne,
    ComputerTwo,
}

/// The outcome of one game.
#[derive(Debug, PartialEq, Eq, Clone, Copy, Structural)]
pub struct SimulationResult {
    pub computer_one_stats: ComputerStats,
    pub computer_two_stats: ComputerStats,
    pub winner: ComputerPlayer,
}

impl SimulationResult {
    pub fn new(
        computer_one_stats: ComputerStats,
        computer_two_stats: ComputerStats,
        winner: ComputerPlayer,
    ) -> (result: Self)
        ensures
            result == (SimulationResult { computer_one_stats, computer_two_stats, winner }),
    {
        Self { computer_one_stats, computer_two_stats, winner }
    }
}

/// The statistics once an attack with the given feedback is counted: one
/// more shot; one more hit if it hit a ship, else one more miss; one more
/// ship sunk if it sank one.
pub open spec fn stats_after(stats: ComputerStats, feedback: AttackFeedback) -> ComputerStats {
    ComputerStats {
        hits: if feedback.hit_a_ship {
            (stats.hits + 1) as u32
        } else {
            stats.hits
        },
        misses: if feedback.hit_a_ship {
            stats.misses
        } else {
            (stats.misses + 1) as u32
        },
        ships_sunk: if feedback.sunk_a_ship {
            (stats.ships_sunk + 1) as u32
        } else {
            stats.ships_sunk
        },
        shots_fired: (stats.shots_fired + 1) as u32,
    }
}

/// The statistics of the attacker agree with the board it attacks, on which
/// a fleet stood when the game began: every shot took an open cell, every
/// hit a ship cell, every sinking a ship.
pub open spec fn tracks(stats: ComputerStats, cells: Seq<Tile>) -> bool {
    &&& cells.len() == 100
    &&& stats.shots_fired + count_in(cells, is_open()) == 100
    &&& stats.hits + count_in(cells, is_ship()) == 17
    &&& stats.hits + stats.misses == stats.shots_fired
    &&& stats.ships_sunk + kinds_left(cells) == 5
}

/// What holds of one side's statistics at the end of every game.
pub open spec fn sound_stats(stats: ComputerStats) -> bool {
    &&& stats.hits + stats.misses == stats.shots_fired
    &&& stats.shots_fired <= 100
    &&& stats.hits <= 17
    &&& stats.ships_sunk <= 5
}

/// What holds of the outcome of every game.
///
/// The winner has hit all seventeen ship cells and sunk all five ships; the
/// loser has not.  Computer one moves first: it has fired one shot more than
/// computer two if it won, and as many if it lost.
pub open spec fn sound_result(result: SimulationResult) -> bool {
    let one = result.computer_one_stats;
    let two = result.computer_two_stats;
    &&& sound_stats(one)
    &&& sound_stats(two)
    &&& match result.winner {
        ComputerPlayer::ComputerOne => {
            &&& one.hits == 17
            &&& one.ships_sunk == 5
            &&& two.hits < 17
            &&& two.ships_sunk < 5
            &&& one.shots_fired == two.shots_fired + 1
        },
        ComputerPlayer::ComputerTwo => {
            &&& two.hits == 17
            &&& two.ships_sunk == 5
            &&& one.hits < 17
            &&& one.ships_sunk < 5
            &&& one.shots_fired == two.shots_fired
        },
    }
}

/// Counting a valid attack keeps the statistics in step with the board.
pub proof fn lemma_turn_tracks(stats: ComputerStats, cells: Seq<Tile>, target: Position)
    requires
        tracks(stats, cells),
        usable(cells, target),
    ensures
        tracks(
            stats_after(stats, attack_outcome(cells, target)),
            cells_after_attack(cells, target),
        ),
        count_in(cells_after_attack(cells, target), is_open()) + 1 == count_in(cells, is_open()),
{
    lemma_attack_counts(cells, target);
    lemma_attack_kinds(cells, target);
    lemma_count_bound(cells, is_open());
    lemma_count_bound(cells, is_ship());
    lemma_kinds_none(cells);
}

/// Statistics in step with a board show a win exactly when no ship is left
/// on it.
pub proof fn lemma_tracks_win(stats: ComputerStats, cells: Seq<Tile>)
    requires
        tracks(stats, cells),
    ensures
        sound_stats(stats),
        no_ship(cells) <==> stats.hits == 17,
        no_ship(cells) <==> stats.ships_sunk == 5,
{
    lemma_count_zero(cells, is_ship());
    lemma_count_bound(cells, is_open());
    lemma_kinds_none(cells);
    assert(no_ship(cells) <==> count_in(cells, is_ship()) == 0) by {
        if no_ship(cells) {
            assert forall|i: int| 0 <= i < cells.len() implies !is_ship()(#[trigger] cells[i]) by {
                assert(!(cells[i] is Ship));
            }
        }
        if count_in(cells, is_ship()) == 0 {
            assert forall|i: int| 0 <= i < cells.len() implies !(#[trigger] cells[i] is Ship) by {
                assert(!is_ship()(cells[i]));
            }
        }
    }
}

/// One turn of a computer: the strategy picks a target on the defender's
/// board, the attack is judged and recorded on that board, and counted in
/// the attacker's statistics.  Returns the target and the feedback.
///
/// The game must not be over, and the counters must have room for one more.
pub fn computer_turn<S: AttackStrategy>(
    attack_strategy: &mut S,
    defender_board: &mut GameBoard,
    stats: &mut ComputerStats,
) -> (turn: (Position, AttackFeedback))
    requires
        old(attack_strategy).well_formed(),
        !old(defender_board).all_sunk(),
        old(stats).shots_fired < u32::MAX,
        old(stats).hits < u32::MAX,
        old(stats).misses < u32::MAX,
        old(stats).ships_sunk < u32::MAX,
    ensures
        final(attack_strategy).well_formed(),
        usable(old(defender_board)@, turn.0),
        turn.1 == attack_outcome(old(defender_board)@, turn.0),
        final(defender_board)@ == cells_after_attack(old(defender_board)@, turn.0),
        *final(stats) == stats_after(*old(stats), turn.1),
{
    let attack_position = attack_strategy.calculate_best_attack(defender_board);

    let feedback = resolve_attack(defender_board, attack_position);

    if feedback.sunk_a_ship {
        stats.ships_sunk += 1;
    }
    stats.shots_fired += 1;

    if feedback.hit_a_ship {
        stats.hits += 1;
    } else {
        stats.misses += 1;
    }
    (attack_position, feedback)
}

/// Plays one game between two computers whose boards hold a fleet.
///
/// Both strategies begin with their memory cleared.  The computers attack in
/// turn, computer one first, each a copy of the other's board, until one of
/// them has sunk the other's fleet.  The boards of the computers themselves
/// stay as they were.
pub fn play_game<A: AttackStrategy, B: AttackStrategy>(
    computer_one: &mut Computer<A>,
    computer_two: &mut Computer<B>,
) -> (result: SimulationResult)
    requires
        is_fleet(old(computer_one).computer_board@),
        is_fleet(old(computer_two).computer_board@),
    ensures
        final(computer_one).attack_strategy.well_formed(),
        final(computer_two).attack_strategy.well_formed(),
        final(computer_one).computer_board == old(computer_one).computer_board,
        final(computer_two).computer_board == old(computer_two).computer_board,
        sound_result(result),
{
    computer_one.attack_strategy.reset();
    computer_two.attack_strategy.reset();

    let mut computer_one_board = computer_one.computer_board;
    let mut computer_two_board = computer_two.computer_board;

    let nothing_yet = ComputerStats { hits: 0, misses: 0, ships_sunk: 0, shots_fired: 0 };
    let mut computer_one_stats = nothing_yet;
    let mut computer_two_stats = nothing_yet;

    proof {
        lemma_fleet_cells(computer_one_board@);
        lemma_fleet_cells(computer_two_board@);
        lemma_fleet_kinds(computer_one_board@);
        lemma_fleet_kinds(computer_two_board@);
        lemma_tracks_win(computer_one_stats, computer_two_board@);
        lemma_tracks_win(computer_two_stats, computer_one_board@);
    }

    loop
        invariant_except_break
            !computer_one_board.all_sunk(),
            !computer_two_board.all_sunk(),
            computer_one_stats.shots_fired == computer_two_stats.shots_fired,
        invariant
            computer_one.attack_strategy.well_formed(),
            computer_two.attack_strategy.well_formed(),
            computer_one.computer_board == old(computer_one).computer_board,
            computer_two.computer_board == old(computer_two).computer_board,
            tracks(computer_one_stats, computer_two_board@),
            tracks(computer_two_stats, computer_one_board@),
        ensures
            computer_two_board.all_sunk() != computer_one_board.all_sunk(),
            computer_two_board.all_sunk() ==> computer_one_stats.shots_fired
                == computer_two_stats.shots_fired + 1,
            computer_one_board.all_sunk() ==> computer_one_stats.shots_fired
                == computer_two_stats.shots_fired,
        decreases computer_one_board.open_cells() + computer_two_board.open_cells(),
    {
        proof {
            lemma_tracks_win(computer_one_stats, computer_two_board@);
            lemma_tracks_win(computer_two_stats, computer_one_board@);
        }
        let ghost before = computer_two_board@;
        let ghost stats_before = computer_one_stats;
        let turn = computer_turn(
            &mut computer_one.attack_strategy,
            &mut computer_two_board,
            &mut computer_one_stats,
        );
        proof {
            lemma_turn_tracks(stats_before, before, turn.0);
        }

        if turn.1.won_the_game {
            break;
        }
        let ghost before = computer_one_board@;
        let ghost stats_before = computer_two_stats;
        let turn = computer_turn(
            &mut computer_two.attack_strategy,
            &mut computer_one_board,
            &mut computer_two_stats,
        );
        proof {
            lemma_turn_tracks(stats_before, before, turn.0);
        }

        if turn.1.won_the_game {
            break;
        }
    }

    proof {
        lemma_tracks_win(computer_one_stats, computer_two_board@);
        lemma_tracks_win(computer_two_stats, computer_one_board@);
    }
    let winner = if computer_one_stats.ships_sunk > computer_two_stats.ships_sunk {
        ComputerPlayer::ComputerOne
    } else {
        ComputerPlayer::ComputerTwo
    };

    SimulationResult::new(computer_one_stats, computer_two_stats, winner)
}

/// The tally of a series of games between two strategies.
pub struct SimulationResults {
    pub stats: Vec<SimulationResult>,
    pub computer_one_attack_strategy: ComputerAttackStrategy,
    pub computer_two_attack_strategy: ComputerAttackStrategy,
    pub computer_one_wins: i32,
    pub computer_two_wins: i32,
    pub games_played: i32,
}

/// 1 if the given side won the game, else 0.
pub open spec fn won_by(result: SimulationResult, side: ComputerPlayer) -> int {
    if result.winner == side {
        1
    } else {
        0
    }
}

/// Number of games among the first `n` that the given side won.
pub open spec fn wins_of(stats: Seq<SimulationResult>, side: ComputerPlayer, n: int) -> int
    decreases n,
{
    if n <= 0 {
        0
    } else {
        wins_of(stats, side, n - 1) + won_by(stats[n - 1], side)
    }
}

/// Every game has one winner: the wins of the two sides add up to the number
/// of games.
pub proof fn lemma_wins_add_up(stats: Seq<SimulationResult>, n: int)
    requires
        0 <= n <= stats.len(),
    ensures
        wins_of(stats, ComputerPlayer::ComputerOne, n) + wins_of(
            stats,
            ComputerPlayer::ComputerTwo,
            n,
        ) == n,
    decreases n,
{
    if n > 0 {
        lemma_wins_add_up(stats, n - 1);
    }
}

proof fn lemma_wins_push(
    stats: Seq<SimulationResult>,
    result: SimulationResult,
    side: ComputerPlayer,
    n: int,
)
    requires
        0 <= n <= stats.len(),
    ensures
        wins_of(stats.push(result), side, n) == wins_of(stats, side, n),
    decreases n,
{
    if n > 0 {
        lemma_wins_push(stats, result, side, n - 1);
    }
}

impl SimulationResults {
    /// The tally agrees with the games it lists: one game played for each
    /// result, and for each side as many wins as results name it the winner.
    pub open spec fn consistent(&self) -> bool {
        &&& self.games_played == self.stats@.len()
        &&& self.computer_one_wins == wins_of(
            self.stats@,
            ComputerPlayer::ComputerOne,
            self.stats@.len() as int,
        )
        &&& self.computer_two_wins == wins_of(
            self.stats@,
            ComputerPlayer::ComputerTwo,
            self.stats@.len() as int,
        )
    }

    /// The tally before the first game.
    pub fn new(
        computer_one_attack_strategy: ComputerAttackStrategy,
        computer_two_attack_strategy: ComputerAttackStrategy,
    ) -> (results: Self)
        ensures
            results.stats@ == Seq::<SimulationResult>::empty(),
            results.computer_one_attack_strategy == computer_one_attack_strategy,
            results.computer_two_attack_strategy == computer_two_attack_strategy,
            results.computer_one_wins == 0,
            results.computer_two_wins == 0,
            results.games_played == 0,
            results.consistent(),
    {
        Self {
            stats: Vec::new(),
            computer_one_attack_strategy,
            computer_two_attack_strategy,
            computer_one_wins: 0,
            computer_two_wins: 0,
            games_played: 0,
        }
    }

    /// Adds one game to the tally: the winner gains a win, the result joins
    /// the list, and one more game has been played.  The counters must have
    /// room for one more.
    ///
    /// A consistent tally stays consistent, and its wins add up to the games
    /// played.
    pub fn add_simulation_result(&mut self, simulation_result: SimulationResult)
        requires
            old(self).games_played < i32::MAX,
            old(self).computer_one_wins < i32::MAX,
            old(self).computer_two_wins < i32::MAX,
        ensures
            final(self).stats@ == old(self).stats@.push(simulation_result),
            final(self).games_played == old(self).games_played + 1,
            final(self).computer_one_wins == old(self).computer_one_wins + won_by(
                simulation_result,
                ComputerPlayer::ComputerOne,
            ),
            final(self).computer_two_wins == old(self).computer_two_wins + won_by(
                simulation_result,
                ComputerPlayer::ComputerTwo,
            ),
            final(self).computer_one_attack_strategy == old(self).computer_one_attack_strategy,
            final(self).computer_two_attack_strategy == old(self).computer_two_attack_strategy,
            old(self).consistent() ==> final(self).consistent() && final(self).computer_one_wins
                + final(self).computer_two_wins == final(self).games_played,
    {
        proof {
            let stats = self.stats@;
            lemma_wins_push(
                stats,
                simulation_result,
                ComputerPlayer::ComputerOne,
                stats.len() as int,
            );
            lemma_wins_push(
                stats,
                simulation_result,
                ComputerPlayer::ComputerTwo,
                stats.len() as int,
            );
            lemma_wins_add_up(stats.push(simulation_result), stats.len() as int + 1);
        }
        match simulation_result.winner {
            ComputerPlayer::ComputerOne => self.computer_one_wins += 1,
            ComputerPlayer::ComputerTwo => self.computer_two_wins += 1,
        }

        self.stats.push(simulation_result);

        self.games_played += 1;
    }
}

/// Plays the games that the configuration asks for and returns the tally.
///
/// Each game begins with new fleets set up by chance and with the memory of
/// both strategies cleared.  A number of games below one plays none.
/// The tally lists one sound result for each game, and the wins of the two
/// sides add up to the number of games.
pub fn simulated_game(simulation_config: SimulationConfig) -> (results: SimulationResults)
    ensures
        results.consistent(),
        results.games_played == if simulation_config.games_to_play > 0 {
            simulation_config.games_to_play
        } else {
            0
        },
        results.computer_one_wins + results.computer_two_wins == results.games_played,
        results.computer_one_attack_strategy == simulation_config.attack_strategy_one,
        results.computer_two_attack_strategy == simulation_config.attack_strategy_two,
        forall|i: int| 0 <= i < results.stats@.len() ==> sound_result(#[trigger] results.stats@[i]),
{
    let games_to_simulate = simulation_config.games_to_play;

    let mut simulation_results = SimulationResults::new(
        simulation_config.attack_strategy_one,
        simulation_config.attack_strategy_two,
    );

    let mut computer_one = Computer::new(
        ChosenStrategy::by_name(simulation_config.attack_strategy_one),
    );
    let mut computer_two = Computer::new(
        ChosenStrategy::by_name(simulation_config.attack_strategy_two),
    );

    let mut games_played: i32 = 0;

    proof {
        lemma_wins_add_up(simulation_results.stats@, 0);
    }
    while games_played < games_to_simulate
        invariant
            0 <= games_played,
            games_to_simulate > 0 ==> games_played <= games_to_simulate,
            games_to_simulate <= 0 ==> games_played == 0,
            games_to_simulate == simulation_config.games_to_play,
            simulation_results.consistent(),
            simulation_results.games_played == games_played,
            simulation_results.computer_one_wins + simulation_results.computer_two_wins
                == games_played,
            simulation_results.computer_one_wins >= 0,
            simulation_results.computer_two_wins >= 0,
            simulation_results.computer_one_attack_strategy
                == simulation_config.attack_strategy_one,
            simulation_results.computer_two_attack_strategy
                == simulation_config.attack_strategy_two,
            forall|i: int|
                0 <= i < simulation_results.stats@.len() ==> sound_result(
                    #[trigger] simulation_results.stats@[i],
                ),
        decreases games_to_simulate - games_played,
    {
        computer_one.regenerate_computer_board();
        computer_two.regenerate_computer_board();

        let simulation_result = play_game(&mut computer_one, &mut computer_two);

        simulation_results.add_simulation_result(simulation_result);

        games_played += 1;
    }

    simulation_results
}

} // verus!
