use battleship::game::computer::computers::hacker::Hacker;
use battleship::game::computer::computers::hunt_and_target::HuntAndTargetAttackStrategy;
use battleship::game::computer::computers::probability_attack::ProbabilityAttackStrategy;
use battleship::game::computer::computers::random_attack::RandomAttackStrategy;
use battleship::game::computer::computers::ChosenStrategy;
use battleship::game::computer::{open_positions, position_from_draws, AttackStrategy};
use battleship::game::{place_ship_on_board, resolve_attack};
use battleship::utils::ships::get_ship;
use battleship::{ComputerAttackStrategy, Difficulty, GameBoard, Position, ShipType, Tile};

fn board_with(ships: &[(ShipType, usize, usize)]) -> GameBoard {
    let mut board = GameBoard::new();
    for (ship_type, row, col) in ships {
        let (placed, grid) =
            place_ship_on_board(board.board, &get_ship(*ship_type), *row, *col, false);
        assert!(placed);
        board.board = grid;
    }
    board
}

fn fill_with_misses(board: &mut GameBoard, keep: &[(i8, i8)]) {
    for y in 0..10i8 {
        for x in 0..10i8 {
            let position = Position::new(y, x);
            if !keep.contains(&(y, x)) && board.get_tile_at_position(position) == Tile::Unknown {
                board.place_marker_on_board(position, Tile::Miss);
            }
        }
    }
}

#[test]
fn adjacent_positions_are_up_down_left_right() {
    let strategy = RandomAttackStrategy;
    assert_eq!(
        strategy.get_adjacent_positions(Position::new(5, 5)),
        vec![
            Position::new(4, 5),
            Position::new(6, 5),
            Position::new(5, 4),
            Position::new(5, 6)
        ]
    );
    assert_eq!(
        strategy.get_adjacent_positions(Position::new(0, 9)),
        vec![
            Position::new(-1, 9),
            Position::new(1, 9),
            Position::new(0, 8),
            Position::new(0, 10)
        ]
    );
}

#[test]
fn draws_give_row_and_column() {
    assert_eq!(position_from_draws(0, 0), Position::new(0, 0));
    assert_eq!(position_from_draws(3, 7), Position::new(3, 7));
    assert_eq!(position_from_draws(9, 9), Position::new(9, 9));
    assert_eq!(position_from_draws(10, 19), Position::new(0, 9));
    assert_eq!(position_from_draws(123, 45), Position::new(3, 5));
    // usize::MAX ends in 5 on the machines that this runs on
    let last = (usize::MAX % 10) as i8;
    assert_eq!(position_from_draws(usize::MAX, 0), Position::new(last, 0));
    assert_eq!(position_from_draws(0, usize::MAX), Position::new(0, last));
    for first in 0..40usize {
        for second in 0..40usize {
            let position = position_from_draws(first, second);
            assert!(position.is_on_board());
            assert_eq!(position.y as usize, first % 10);
            assert_eq!(position.x as usize, second % 10);
        }
    }
}

#[test]
fn generated_positions_are_on_the_board() {
    let strategy = RandomAttackStrategy;
    let mut seen = std::collections::HashSet::new();
    for _ in 0..2000 {
        let position = strategy.generate_random_position();
        assert!(position.is_on_board());
        seen.insert((position.y, position.x));
    }
    assert!(seen.len() > 90);
}

#[test]
fn open_positions_in_row_order() {
    let mut board = board_with(&[(ShipType::DestroyerHorizontal, 0, 0)]);
    assert_eq!(open_positions(&board).len(), 100);
    board.place_marker_on_board(Position::new(0, 1), Tile::Hit);
    board.place_marker_on_board(Position::new(0, 2), Tile::Miss);
    board.place_marker_on_board(Position::new(9, 9), Tile::Targeted);
    board.place_marker_on_board(Position::new(5, 0), Tile::AlreadyAttacked);
    let open = open_positions(&board);
    assert_eq!(open.len(), 96);
    assert_eq!(open[0], Position::new(0, 0));
    assert_eq!(open[1], Position::new(0, 3));
    assert_eq!(open[95], Position::new(9, 8));
    assert!(!open.contains(&Position::new(5, 0)));
    for window in open.windows(2) {
        assert!((window[0].y, window[0].x) < (window[1].y, window[1].x));
    }
}

#[test]
fn random_strategy_attacks_open_cells_only() {
    let mut board = board_with(&[(ShipType::CruiserHorizontal, 3, 3)]);
    fill_with_misses(&mut board, &[(0, 0), (9, 9)]);
    let mut strategy = RandomAttackStrategy;
    let mut seen = std::collections::HashSet::new();
    for _ in 0..300 {
        let target = strategy.calculate_best_attack(&board);
        assert!(board.get_tile_at_position(target).is_open());
        seen.insert((target.y, target.x));
    }
    let expected: std::collections::HashSet<(i8, i8)> =
        [(0, 0), (9, 9), (3, 3), (3, 4), (3, 5)].into_iter().collect();
    assert_eq!(seen, expected);
}

#[test]
fn random_position_finds_the_last_open_cell() {
    let mut board = board_with(&[(ShipType::DestroyerVertical, 8, 9)]);
    fill_with_misses(&mut board, &[]);
    board.place_marker_on_board(Position::new(8, 9), Tile::Hit);
    let mut strategy = RandomAttackStrategy;
    for _ in 0..20 {
        assert_eq!(strategy.get_random_position(&board), Position::new(9, 9));
        assert_eq!(strategy.calculate_best_attack(&board), Position::new(9, 9));
    }
}

#[test]
fn hunt_and_target_follows_a_hit() {
    let mut board = board_with(&[
        (ShipType::CruiserHorizontal, 5, 4),
        (ShipType::DestroyerVertical, 0, 0),
    ]);
    let mut strategy = HuntAndTargetAttackStrategy::new();
    assert!(strategy.remembered_hits().is_empty());

    // the first hit comes from the random search
    let first = Position::new(5, 5);
    strategy.note_random_pick(&board, first);
    assert_eq!(strategy.remembered_hits(), vec![first]);
    assert!(resolve_attack(&mut board, first).hit_a_ship);

    let around: Vec<Position> = strategy.get_adjacent_positions(first);
    let mut attacked = Vec::new();
    for _ in 0..4 {
        let target = strategy.calculate_best_attack(&board);
        assert!(around.contains(&target));
        attacked.push(target);
        assert!(resolve_attack(&mut board, target).valid_attack);
    }
    assert_eq!(
        attacked,
        vec![
            Position::new(4, 5),
            Position::new(6, 5),
            Position::new(5, 4),
            Position::new(5, 6)
        ]
    );
    for x in 4..7 {
        assert_eq!(board.get_tile_at_position(Position::new(5, x)), Tile::Hit);
    }

    // the cruiser is sunk: none of its cells is attacked again
    for _ in 0..40 {
        let target = strategy.calculate_best_attack(&board);
        assert!(!(target.y == 5 && (4..7).contains(&target.x)));
        assert!(resolve_attack(&mut board, target).valid_attack);
        if board.check_if_hit_won_the_game() {
            break;
        }
    }
}

#[test]
fn hunt_and_target_remembers_ships_it_runs_into() {
    let mut board = board_with(&[(ShipType::CruiserHorizontal, 5, 4)]);
    let mut strategy = HuntAndTargetAttackStrategy::new();
    strategy.note_random_pick(&board, Position::new(5, 4));
    resolve_attack(&mut board, Position::new(5, 4));
    // up and down are water, left is water, right is the ship
    assert_eq!(strategy.calculate_best_attack(&board), Position::new(4, 4));
    resolve_attack(&mut board, Position::new(4, 4));
    assert_eq!(strategy.calculate_best_attack(&board), Position::new(6, 4));
    resolve_attack(&mut board, Position::new(6, 4));
    assert_eq!(strategy.calculate_best_attack(&board), Position::new(5, 3));
    resolve_attack(&mut board, Position::new(5, 3));
    assert_eq!(strategy.remembered_hits(), vec![Position::new(5, 4)]);
    assert_eq!(strategy.calculate_best_attack(&board), Position::new(5, 5));
    assert_eq!(strategy.remembered_hits(), vec![Position::new(5, 4), Position::new(5, 5)]);
    resolve_attack(&mut board, Position::new(5, 5));
    // (5, 4) has no open neighbour left; (5, 5) leads on: up first
    assert_eq!(strategy.calculate_best_attack(&board), Position::new(4, 5));
    resolve_attack(&mut board, Position::new(4, 5));
    assert_eq!(strategy.calculate_best_attack(&board), Position::new(6, 5));
    resolve_attack(&mut board, Position::new(6, 5));
    // the last cell sinks the cruiser: it is forgotten at once, the cells
    // hit before it stay in memory
    assert_eq!(strategy.calculate_best_attack(&board), Position::new(5, 6));
    assert_eq!(strategy.remembered_hits(), vec![Position::new(5, 4), Position::new(5, 5)]);
}

#[test]
fn hunt_and_target_pick_on_water_is_not_remembered() {
    let board = board_with(&[(ShipType::CruiserHorizontal, 5, 4)]);
    let mut strategy = HuntAndTargetAttackStrategy::new();
    strategy.note_random_pick(&board, Position::new(0, 0));
    assert!(strategy.remembered_hits().is_empty());
    assert_eq!(strategy.follow_lead(&board), None);
    assert!(strategy.remembered_hits().is_empty());
}

#[test]
fn hunt_and_target_skips_cells_off_the_board() {
    let mut board = board_with(&[(ShipType::DestroyerVertical, 0, 0)]);
    let mut strategy = HuntAndTargetAttackStrategy::new();
    strategy.note_random_pick(&board, Position::new(0, 0));
    resolve_attack(&mut board, Position::new(0, 0));
    // up is off the board, down is the rest of the destroyer
    assert_eq!(strategy.follow_lead(&board), Some(Position::new(1, 0)));
    // that attack will sink: the new position is not kept
    assert_eq!(strategy.remembered_hits(), vec![Position::new(0, 0)]);
    resolve_attack(&mut board, Position::new(1, 0));
    // left is off the board, right is water
    assert_eq!(strategy.follow_lead(&board), Some(Position::new(0, 1)));
}

#[test]
fn hunt_and_target_falls_back_to_chance() {
    let mut board = board_with(&[(ShipType::DestroyerVertical, 4, 4)]);
    fill_with_misses(&mut board, &[]);
    let mut strategy = HuntAndTargetAttackStrategy::new();
    let target = strategy.calculate_best_attack(&board);
    assert!(target == Position::new(4, 4) || target == Position::new(5, 4));
    assert_eq!(strategy.remembered_hits(), vec![target]);
}

#[test]
fn hunt_and_target_simulation_and_pruning() {
    let mut board = board_with(&[(ShipType::DestroyerHorizontal, 2, 2)]);
    let mut strategy = HuntAndTargetAttackStrategy::new();
    assert!(!strategy.simulate_attack_result(board, Position::new(2, 2)));
    assert!(!strategy.simulate_attack_result(board, Position::new(0, 0)));
    strategy.note_random_pick(&board, Position::new(2, 2));
    strategy.note_random_pick(&board, Position::new(2, 3));
    resolve_attack(&mut board, Position::new(2, 2));
    assert!(strategy.simulate_attack_result(board, Position::new(2, 3)));
    assert_eq!(board.get_tile_at_position(Position::new(2, 3)), Tile::Ship(ShipType::DestroyerHorizontal));
    strategy.remove_hits_from_previous_attack_on_sink(
        &board,
        Tile::Ship(ShipType::DestroyerHorizontal),
    );
    assert_eq!(strategy.remembered_hits(), vec![Position::new(2, 2)]);
    strategy.remove_hits_from_previous_attack_on_sink(&board, Tile::Hit);
    assert!(strategy.remembered_hits().is_empty());
}

#[test]
fn probability_scores_on_water() {
    let board = GameBoard::new();
    let strategy = ProbabilityAttackStrategy::new();
    assert_eq!(strategy.smallest_ship_length(), 2);
    // 1, plus 5 at the centre, plus 4 for room in every direction
    assert_eq!(strategy.calculate_probability(&board, Position::new(4, 4)), 10);
    // one step from the centre
    assert_eq!(strategy.calculate_probability(&board, Position::new(4, 5)), 9);
    assert_eq!(strategy.calculate_probability(&board, Position::new(3, 4)), 9);
    // four steps from the centre: the last cell with a bonus
    assert_eq!(strategy.calculate_probability(&board, Position::new(4, 8)), 5);
    assert_eq!(strategy.calculate_probability(&board, Position::new(2, 2)), 6);
    // five steps: no bonus, and no room to the right
    assert_eq!(strategy.calculate_probability(&board, Position::new(4, 9)), 4);
    // the corners have room in two directions only
    assert_eq!(strategy.calculate_probability(&board, Position::new(0, 0)), 3);
    assert_eq!(strategy.calculate_probability(&board, Position::new(9, 9)), 3);
    assert_eq!(strategy.calculate_probability(&board, Position::new(0, 9)), 3);
    // room reaches as far as the cell two steps away
    assert_eq!(strategy.calculate_probability(&board, Position::new(7, 7)), 5);
    assert_eq!(strategy.calculate_probability(&board, Position::new(8, 8)), 3);
    assert_eq!(strategy.calculate_probability(&board, Position::new(1, 1)), 3);
}

#[test]
fn probability_scores_next_to_hits_and_misses() {
    let mut board = GameBoard::new();
    board.place_marker_on_board(Position::new(4, 4), Tile::Hit);
    board.place_marker_on_board(Position::new(6, 6), Tile::Miss);
    let strategy = ProbabilityAttackStrategy::new();
    assert_eq!(strategy.calculate_probability(&board, Position::new(4, 4)), 0);
    assert_eq!(strategy.calculate_probability(&board, Position::new(6, 6)), 0);
    assert_eq!(strategy.calculate_probability(&board, Position::new(3, 4)), 29);
    assert_eq!(strategy.calculate_probability(&board, Position::new(4, 5)), 29);
    // three steps from the centre, next to the miss: 1 + 2 - 2 + 4
    assert_eq!(strategy.calculate_probability(&board, Position::new(6, 5)), 5);
    assert_eq!(strategy.calculate_probability(&board, Position::new(5, 6)), 5);
    board.place_marker_on_board(Position::new(4, 6), Tile::Miss);
    assert_eq!(strategy.calculate_probability(&board, Position::new(4, 5)), 27);
    board.place_marker_on_board(Position::new(5, 5), Tile::Hit);
    assert_eq!(strategy.calculate_probability(&board, Position::new(4, 5)), 47);
    // a ship next door counts like water
    board.place_marker_on_board(Position::new(1, 1), Tile::Ship(ShipType::DestroyerVertical));
    assert_eq!(strategy.calculate_probability(&board, Position::new(1, 2)), 1 + 3);
    assert_eq!(strategy.calculate_probability(&board, Position::new(1, 1)), 3);
}

#[test]
fn probability_scores_dead_cells() {
    let mut board = GameBoard::new();
    let strategy = ProbabilityAttackStrategy::new();
    // a corner between two misses: 1 - 2 - 2 + 2 - 30
    board.place_marker_on_board(Position::new(0, 1), Tile::Miss);
    board.place_marker_on_board(Position::new(1, 0), Tile::Miss);
    assert!(strategy.position_is_surrounded_by_sunk_ships(&board, Position::new(0, 0)));
    assert_eq!(strategy.calculate_probability(&board, Position::new(0, 0)), -31);
    // a cell among four hits: 1 + 3 + 80 + 4 - 30
    for (y, x) in [(2, 3), (4, 3), (3, 2), (3, 4)] {
        board.place_marker_on_board(Position::new(y, x), Tile::Hit);
    }
    assert!(strategy.position_is_surrounded_by_sunk_ships(&board, Position::new(3, 3)));
    assert_eq!(strategy.calculate_probability(&board, Position::new(3, 3)), 58);
    // one open neighbour keeps a cell alive
    assert!(!strategy.position_is_surrounded_by_sunk_ships(&board, Position::new(2, 2)));
    board.place_marker_on_board(Position::new(3, 4), Tile::Ship(ShipType::CruiserVertical));
    assert!(!strategy.position_is_surrounded_by_sunk_ships(&board, Position::new(3, 3)));
    assert_eq!(strategy.calculate_probability(&board, Position::new(3, 3)), 68);
}

#[test]
fn probability_attacks_the_centre_first() {
    let mut board = board_with(&[(ShipType::DestroyerHorizontal, 0, 0)]);
    let mut strategy = ProbabilityAttackStrategy::new();
    assert_eq!(strategy.best_position(&board), Position::new(4, 4));
    assert_eq!(strategy.calculate_best_attack(&board), Position::new(4, 4));
    assert!(strategy.sunk_ships().is_empty());
    resolve_attack(&mut board, Position::new(4, 4));
    // next to the miss 7, two steps away 8: the first such cell in row order
    assert_eq!(strategy.calculate_best_attack(&board), Position::new(2, 4));
}

#[test]
fn probability_follows_a_hit_in_row_order() {
    let mut board = board_with(&[(ShipType::CruiserVertical, 4, 4)]);
    let mut strategy = ProbabilityAttackStrategy::new();
    assert_eq!(strategy.calculate_best_attack(&board), Position::new(4, 4));
    resolve_attack(&mut board, Position::new(4, 4));
    assert_eq!(strategy.calculate_best_attack(&board), Position::new(3, 4));
    resolve_attack(&mut board, Position::new(3, 4));
    // (4, 3), (4, 5) and (5, 4) all score 29: the first in row order
    assert_eq!(strategy.calculate_best_attack(&board), Position::new(4, 3));
    resolve_attack(&mut board, Position::new(4, 3));
    assert_eq!(strategy.calculate_best_attack(&board), Position::new(4, 5));
    resolve_attack(&mut board, Position::new(4, 5));
    assert_eq!(strategy.calculate_best_attack(&board), Position::new(5, 4));
    assert!(strategy.sunk_ships().is_empty());
    resolve_attack(&mut board, Position::new(5, 4));
    let last = strategy.calculate_best_attack(&board);
    assert_eq!(last, Position::new(6, 4));
    assert_eq!(strategy.sunk_ships(), vec![Tile::Ship(ShipType::CruiserVertical)]);
    assert_eq!(strategy.smallest_ship_length(), 2);
    assert!(resolve_attack(&mut board, last).won_the_game);
}

#[test]
fn probability_picks_the_best_of_bad_cells() {
    let mut board = GameBoard::new();
    board.place_marker_on_board(Position::new(0, 0), Tile::Ship(ShipType::DestroyerHorizontal));
    fill_with_misses(&mut board, &[(9, 9)]);
    let mut strategy = ProbabilityAttackStrategy::new();
    assert_eq!(strategy.calculate_probability(&board, Position::new(0, 0)), -31);
    assert_eq!(strategy.calculate_probability(&board, Position::new(9, 9)), -31);
    assert_eq!(strategy.calculate_best_attack(&board), Position::new(0, 0));
    assert_eq!(strategy.sunk_ships(), vec![Tile::Ship(ShipType::DestroyerHorizontal)]);
    // with a better cell further on
    board.place_marker_on_board(Position::new(9, 8), Tile::Hit);
    assert_eq!(strategy.calculate_probability(&board, Position::new(9, 9)), -9);
    assert_eq!(strategy.best_position(&board), Position::new(9, 9));
}

#[test]
fn probability_memory() {
    let mut strategy = ProbabilityAttackStrategy::new();
    strategy.add_sunk_ship(Tile::Ship(ShipType::CarrierVertical));
    strategy.update_smallest_ship_on_board(Tile::Ship(ShipType::CarrierVertical));
    assert_eq!(strategy.sunk_ships(), vec![Tile::Ship(ShipType::CarrierVertical)]);
    assert_eq!(strategy.smallest_ship_length(), 2);
    strategy.update_smallest_ship_on_board(Tile::Ship(ShipType::DestroyerVertical));
    assert_eq!(strategy.smallest_ship_length(), 2);
    strategy.update_smallest_ship_on_board(Tile::Miss);
    assert_eq!(strategy.smallest_ship_length(), 2);
}

#[test]
fn hacker_attacks_the_first_ship_cell() {
    let mut board = board_with(&[
        (ShipType::CruiserVertical, 3, 7),
        (ShipType::DestroyerHorizontal, 4, 0),
    ]);
    let mut hacker = Hacker;
    let mut targets = Vec::new();
    while !board.check_if_hit_won_the_game() {
        let target = hacker.calculate_best_attack(&board);
        assert!(resolve_attack(&mut board, target).hit_a_ship);
        targets.push((target.y, target.x));
    }
    assert_eq!(targets, vec![(3, 7), (4, 0), (4, 1), (4, 7), (5, 7)]);
}

#[test]
fn chosen_strategy_by_name_and_difficulty() {
    assert!(matches!(
        ChosenStrategy::by_name(ComputerAttackStrategy::Random),
        ChosenStrategy::Random(_)
    ));
    assert!(matches!(
        ChosenStrategy::by_name(ComputerAttackStrategy::HuntAndTarget),
        ChosenStrategy::HuntAndTarget(_)
    ));
    assert!(matches!(
        ChosenStrategy::by_name(ComputerAttackStrategy::Probability),
        ChosenStrategy::Probability(_)
    ));
    assert!(matches!(ChosenStrategy::by_difficulty(Difficulty::Easy), ChosenStrategy::Random(_)));
    assert!(matches!(
        ChosenStrategy::by_difficulty(Difficulty::Medium),
        ChosenStrategy::HuntAndTarget(_)
    ));
    assert!(matches!(
        ChosenStrategy::by_difficulty(Difficulty::Hard),
        ChosenStrategy::Probability(_)
    ));
}

#[test]
fn chosen_strategy_lets_its_strategy_choose() {
    let board = board_with(&[(ShipType::DestroyerHorizontal, 0, 0)]);
    let mut chosen = ChosenStrategy::by_name(ComputerAttackStrategy::Probability);
    assert_eq!(chosen.calculate_best_attack(&board), Position::new(4, 4));
    let mut chosen = ChosenStrategy::by_name(ComputerAttackStrategy::HuntAndTarget);
    if let ChosenStrategy::HuntAndTarget(strategy) = &mut chosen {
        strategy.note_random_pick(&board, Position::new(0, 0));
    }
    assert_eq!(chosen.calculate_best_attack(&board), Position::new(1, 0));
    let mut chosen = ChosenStrategy::by_name(ComputerAttackStrategy::Random);
    let target = chosen.calculate_best_attack(&board);
    assert!(target.is_on_board());
}

#[test]
fn reset_clears_the_memory() {
    let board = board_with(&[(ShipType::DestroyerHorizontal, 0, 0)]);
    let mut hunt = HuntAndTargetAttackStrategy::new();
    hunt.note_random_pick(&board, Position::new(0, 0));
    hunt.note_random_pick(&board, Position::new(0, 1));
    assert_eq!(hunt.remembered_hits().len(), 2);
    hunt.reset();
    assert!(hunt.remembered_hits().is_empty());
    assert_eq!(hunt.follow_lead(&board), None);

    let mut probability = ProbabilityAttackStrategy::new();
    probability.add_sunk_ship(Tile::Ship(ShipType::CruiserVertical));
    probability.reset();
    assert!(probability.sunk_ships().is_empty());
    assert_eq!(probability.smallest_ship_length(), 2);

    let mut chosen = ChosenStrategy::by_name(ComputerAttackStrategy::HuntAndTarget);
    if let ChosenStrategy::HuntAndTarget(strategy) = &mut chosen {
        strategy.note_random_pick(&board, Position::new(0, 0));
    }
    chosen.reset();
    match chosen {
        ChosenStrategy::HuntAndTarget(strategy) => assert!(strategy.remembered_hits().is_empty()),
        _ => panic!("the strategy held has changed"),
    }
    let mut random = RandomAttackStrategy;
    random.reset();
    let mut hacker = Hacker;
    hacker.reset();
    assert_eq!(hacker.calculate_best_attack(&board), Position::new(0, 0));
}
