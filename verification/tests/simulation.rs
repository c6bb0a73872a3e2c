use battleship::game::computer::computers::hacker::Hacker;
use battleship::game::computer::computers::random_attack::RandomAttackStrategy;
use battleship::game::computer::computers::ChosenStrategy;
use battleship::game::computer::Computer;
use battleship::game::simulation::{
    computer_turn, play_game, simulated_game, ComputerPlayer, ComputerStats, SimulationResult,
    SimulationResults,
};
use battleship::game::place_ship_on_board;
use battleship::utils::ships::get_ship;
use battleship::{ComputerAttackStrategy, GameBoard, ShipType, SimulationConfig, Tile};

fn assert_sound(result: &SimulationResult) {
    let one = result.computer_one_stats;
    let two = result.computer_two_stats;
    for stats in [one, two] {
        assert_eq!(stats.hits + stats.misses, stats.shots_fired);
        assert!(stats.shots_fired <= 100);
        assert!(stats.hits <= 17);
        assert!(stats.ships_sunk <= 5);
    }
    let (winner, loser) = match result.winner {
        ComputerPlayer::ComputerOne => {
            assert_eq!(one.shots_fired, two.shots_fired + 1);
            (one, two)
        }
        ComputerPlayer::ComputerTwo => {
            assert_eq!(one.shots_fired, two.shots_fired);
            (two, one)
        }
    };
    assert_eq!(winner.hits, 17);
    assert_eq!(winner.ships_sunk, 5);
    assert!(loser.hits < 17);
    assert!(loser.ships_sunk < 5);
}

#[test]
fn hundred_games_between_random_strategies() {
    let results = simulated_game(SimulationConfig::new(
        ComputerAttackStrategy::Random,
        ComputerAttackStrategy::Random,
        100,
    ));
    assert_eq!(results.games_played, 100);
    assert_eq!(results.computer_one_wins + results.computer_two_wins, 100);
    assert_eq!(results.stats.len(), 100);
    assert_eq!(results.computer_one_attack_strategy, ComputerAttackStrategy::Random);
    assert_eq!(results.computer_two_attack_strategy, ComputerAttackStrategy::Random);
    let mut one = 0;
    for result in &results.stats {
        assert_sound(result);
        if result.winner == ComputerPlayer::ComputerOne {
            one += 1;
        }
    }
    assert_eq!(one, results.computer_one_wins);
}

#[test]
fn games_between_all_strategies() {
    let names = [
        ComputerAttackStrategy::Random,
        ComputerAttackStrategy::HuntAndTarget,
        ComputerAttackStrategy::Probability,
    ];
    for one in names {
        for two in names {
            let results = simulated_game(SimulationConfig::new(one, two, 5));
            assert_eq!(results.games_played, 5);
            assert_eq!(results.computer_one_wins + results.computer_two_wins, 5);
            assert_eq!(results.computer_one_attack_strategy, one);
            assert_eq!(results.computer_two_attack_strategy, two);
            for result in &results.stats {
                assert_sound(result);
            }
        }
    }
}

#[test]
fn no_games_for_a_count_below_one() {
    for games in [0, -1, i32::MIN] {
        let results = simulated_game(SimulationConfig::new(
            ComputerAttackStrategy::Random,
            ComputerAttackStrategy::Probability,
            games,
        ));
        assert_eq!(results.games_played, 0);
        assert_eq!(results.computer_one_wins, 0);
        assert_eq!(results.computer_two_wins, 0);
        assert!(results.stats.is_empty());
    }
}

#[test]
fn hacker_wins_in_seventeen_shots() {
    let mut one = Computer::new(Hacker);
    let mut two = Computer::new(RandomAttackStrategy);
    let board_one = one.computer_board;
    let board_two = two.computer_board;
    let result = play_game(&mut one, &mut two);
    assert_sound(&result);
    assert_eq!(result.winner, ComputerPlayer::ComputerOne);
    assert_eq!(
        result.computer_one_stats,
        ComputerStats { hits: 17, misses: 0, ships_sunk: 5, shots_fired: 17 }
    );
    assert_eq!(result.computer_two_stats.shots_fired, 16);
    assert_eq!(one.computer_board, board_one);
    assert_eq!(two.computer_board, board_two);

    let mut one = Computer::new(ChosenStrategy::by_name(ComputerAttackStrategy::Probability));
    let mut two = Computer::new(Hacker);
    let result = play_game(&mut one, &mut two);
    assert_sound(&result);
    assert_eq!(result.winner, ComputerPlayer::ComputerTwo);
    assert_eq!(result.computer_two_stats.shots_fired, 17);
    assert_eq!(result.computer_one_stats.shots_fired, 17);
}

#[test]
fn a_game_begins_with_cleared_memory() {
    let mut one = Computer::new(ChosenStrategy::by_name(ComputerAttackStrategy::HuntAndTarget));
    let mut two = Computer::new(ChosenStrategy::by_name(ComputerAttackStrategy::Probability));
    for _ in 0..10 {
        one.regenerate_computer_board();
        two.regenerate_computer_board();
        assert_sound(&play_game(&mut one, &mut two));
    }
}

#[test]
fn a_turn_is_counted() {
    let mut board = GameBoard::new();
    board.board =
        place_ship_on_board(board.board, &get_ship(ShipType::DestroyerHorizontal), 0, 0, false).1;
    let mut stats = ComputerStats { hits: 0, misses: 0, ships_sunk: 0, shots_fired: 0 };
    let mut hacker = Hacker;
    let (target, feedback) = computer_turn(&mut hacker, &mut board, &mut stats);
    assert_eq!((target.y, target.x), (0, 0));
    assert!(feedback.hit_a_ship && !feedback.sunk_a_ship && !feedback.won_the_game);
    assert_eq!(stats, ComputerStats { hits: 1, misses: 0, ships_sunk: 0, shots_fired: 1 });
    assert_eq!(board.board[0][0], Tile::Hit);
    let (target, feedback) = computer_turn(&mut hacker, &mut board, &mut stats);
    assert_eq!((target.y, target.x), (0, 1));
    assert!(feedback.hit_a_ship && feedback.sunk_a_ship && feedback.won_the_game);
    assert_eq!(stats, ComputerStats { hits: 2, misses: 0, ships_sunk: 1, shots_fired: 2 });

    let mut board = GameBoard::new();
    board.board[9][9] = Tile::Ship(ShipType::DestroyerHorizontal);
    for y in 0..10 {
        for x in 0..10 {
            if (y, x) != (9, 9) && (y, x) != (0, 0) && (y, x) != (0, 1) {
                board.board[y][x] = Tile::Miss;
            }
        }
    }
    board.board[0][1] = Tile::Hit;
    // the hit at (0, 1) makes (0, 0) the best cell of the strategy
    let mut strategy = ChosenStrategy::by_name(ComputerAttackStrategy::Probability);
    let mut stats = ComputerStats { hits: 4, misses: 6, ships_sunk: 1, shots_fired: 10 };
    let (target, feedback) = computer_turn(&mut strategy, &mut board, &mut stats);
    assert_eq!((target.y, target.x), (0, 0));
    assert!(feedback.valid_attack && !feedback.hit_a_ship);
    assert_eq!(stats, ComputerStats { hits: 4, misses: 7, ships_sunk: 1, shots_fired: 11 });
}

#[test]
fn tally_counts_wins() {
    let stats = ComputerStats { hits: 17, misses: 3, ships_sunk: 5, shots_fired: 20 };
    let other = ComputerStats { hits: 2, misses: 17, ships_sunk: 0, shots_fired: 19 };
    let mut results = SimulationResults::new(
        ComputerAttackStrategy::HuntAndTarget,
        ComputerAttackStrategy::Probability,
    );
    assert_eq!(results.games_played, 0);
    assert_eq!(results.computer_one_wins, 0);
    assert_eq!(results.computer_two_wins, 0);
    assert!(results.stats.is_empty());
    assert_eq!(results.computer_one_attack_strategy, ComputerAttackStrategy::HuntAndTarget);
    assert_eq!(results.computer_two_attack_strategy, ComputerAttackStrategy::Probability);
    let won_by_one = SimulationResult::new(stats, other, ComputerPlayer::ComputerOne);
    assert_eq!(won_by_one.computer_one_stats, stats);
    assert_eq!(won_by_one.computer_two_stats, other);
    assert_eq!(won_by_one.winner, ComputerPlayer::ComputerOne);
    let won_by_two = SimulationResult::new(other, stats, ComputerPlayer::ComputerTwo);
    results.add_simulation_result(won_by_one);
    results.add_simulation_result(won_by_two);
    results.add_simulation_result(won_by_one);
    assert_eq!(results.games_played, 3);
    assert_eq!(results.computer_one_wins, 2);
    assert_eq!(results.computer_two_wins, 1);
    assert_eq!(results.stats, vec![won_by_one, won_by_two, won_by_one]);
}
