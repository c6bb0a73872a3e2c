use battleship::game::{
    place_ship_on_board, process_attack, record_attack, resolve_attack, AttackFeedback,
};
use battleship::utils::ships::get_ship;
use battleship::{GameBoard, Position, ShipType, Tile};

fn board_with(ships: &[(ShipType, usize, usize)]) -> GameBoard {
    let mut board = GameBoard::new();
    for (ship_type, row, col) in ships {
        let (placed, grid) = place_ship_on_board(board.board, &get_ship(*ship_type), *row, *col, false);
        assert!(placed);
        board.board = grid;
    }
    board
}

#[test]
fn feedback_new_keeps_its_fields() {
    let feedback = AttackFeedback::new(Tile::Miss, true, false, true, false);
    assert_eq!(feedback.tile_at_attack, Tile::Miss);
    assert!(feedback.valid_attack);
    assert!(!feedback.sunk_a_ship);
    assert!(feedback.hit_a_ship);
    assert!(!feedback.won_the_game);
}

#[test]
fn attack_on_water_misses() {
    let board = board_with(&[(ShipType::DestroyerHorizontal, 0, 0)]);
    let feedback = process_attack(board, Position::new(5, 5));
    assert_eq!(feedback, AttackFeedback::new(Tile::Unknown, true, false, false, false));
}

#[test]
fn process_attack_leaves_the_board() {
    let board = board_with(&[(ShipType::DestroyerHorizontal, 0, 0)]);
    let copy = board;
    let first = process_attack(board, Position::new(0, 0));
    let second = process_attack(board, Position::new(0, 0));
    assert_eq!(board, copy);
    assert_eq!(first, second);
    assert!(first.valid_attack);
}

#[test]
fn sink_detection() {
    let mut board = board_with(&[
        (ShipType::DestroyerHorizontal, 0, 0),
        (ShipType::CruiserVertical, 4, 4),
    ]);
    let destroyer = Tile::Ship(ShipType::DestroyerHorizontal);
    let first = resolve_attack(&mut board, Position::new(0, 0));
    assert_eq!(first, AttackFeedback::new(destroyer, true, false, true, false));
    let second = resolve_attack(&mut board, Position::new(0, 1));
    assert_eq!(second, AttackFeedback::new(destroyer, true, true, true, false));
    assert_eq!(board.get_tile_at_position(Position::new(0, 0)), Tile::Hit);
    assert_eq!(board.get_tile_at_position(Position::new(0, 1)), Tile::Hit);
}

#[test]
fn win_detection() {
    let mut board = board_with(&[(ShipType::DestroyerVertical, 7, 3)]);
    let first = resolve_attack(&mut board, Position::new(7, 3));
    assert!(first.hit_a_ship);
    assert!(!first.sunk_a_ship);
    assert!(!first.won_the_game);
    let second = resolve_attack(&mut board, Position::new(8, 3));
    assert!(second.hit_a_ship);
    assert!(second.sunk_a_ship);
    assert!(second.won_the_game);
    assert!(board.check_if_hit_won_the_game());
}

#[test]
fn sinking_one_ship_of_two_does_not_win() {
    let mut board = board_with(&[
        (ShipType::DestroyerHorizontal, 0, 0),
        (ShipType::DestroyerVertical, 5, 5),
    ]);
    resolve_attack(&mut board, Position::new(0, 0));
    let feedback = resolve_attack(&mut board, Position::new(0, 1));
    assert!(feedback.sunk_a_ship);
    assert!(!feedback.won_the_game);
}

#[test]
fn second_attack_on_a_cell_is_refused() {
    let start = board_with(&[(ShipType::DestroyerHorizontal, 0, 0)]);
    for y in 0..10 {
        for x in 0..10 {
            let mut board = start;
            let position = Position::new(y, x);
            let first = resolve_attack(&mut board, position);
            assert!(first.valid_attack);
            let after_first = board;
            let second = resolve_attack(&mut board, position);
            assert!(!second.valid_attack);
            assert!(!second.hit_a_ship);
            assert!(!second.sunk_a_ship);
            assert!(!second.won_the_game);
            assert_eq!(board, after_first);
            let expected = if first.hit_a_ship { Tile::Hit } else { Tile::Miss };
            assert_eq!(second.tile_at_attack, expected);
        }
    }
}

#[test]
fn attack_on_a_marker_is_refused() {
    for marker in [Tile::Targeted, Tile::AlreadyAttacked, Tile::Hit, Tile::Miss] {
        let mut board = board_with(&[(ShipType::DestroyerHorizontal, 0, 0)]);
        board.place_marker_on_board(Position::new(3, 3), marker);
        let before = board;
        let feedback = resolve_attack(&mut board, Position::new(3, 3));
        assert_eq!(feedback, AttackFeedback::new(marker, false, false, false, false));
        assert_eq!(board, before);
    }
}

#[test]
fn miss_on_a_board_without_ships_leaves_none() {
    let mut board = GameBoard::new();
    let feedback = resolve_attack(&mut board, Position::new(2, 2));
    assert_eq!(feedback, AttackFeedback::new(Tile::Unknown, true, false, false, true));
    assert_eq!(board.get_tile_at_position(Position::new(2, 2)), Tile::Miss);
}

#[test]
fn ships_of_one_type_count_as_one() {
    let mut board = GameBoard::new();
    let destroyer = Tile::Ship(ShipType::DestroyerHorizontal);
    for (y, x) in [(0, 0), (0, 1), (5, 5), (5, 6)] {
        board.place_marker_on_board(Position::new(y, x), destroyer);
    }
    assert!(!resolve_attack(&mut board, Position::new(0, 0)).sunk_a_ship);
    assert!(!resolve_attack(&mut board, Position::new(0, 1)).sunk_a_ship);
    assert!(!resolve_attack(&mut board, Position::new(5, 5)).sunk_a_ship);
    let last = resolve_attack(&mut board, Position::new(5, 6));
    assert!(last.sunk_a_ship);
    assert!(last.won_the_game);
}

#[test]
fn record_attack_writes_hit_or_miss() {
    let start = board_with(&[(ShipType::CruiserHorizontal, 2, 2)]);
    let mut board = start;
    let hit = process_attack(board, Position::new(2, 3));
    record_attack(&mut board, Position::new(2, 3), &hit);
    assert_eq!(board.get_tile_at_position(Position::new(2, 3)), Tile::Hit);
    let miss = process_attack(board, Position::new(3, 3));
    record_attack(&mut board, Position::new(3, 3), &miss);
    assert_eq!(board.get_tile_at_position(Position::new(3, 3)), Tile::Miss);
    let refused = process_attack(board, Position::new(3, 3));
    let before = board;
    record_attack(&mut board, Position::new(3, 3), &refused);
    assert_eq!(board, before);
    let mut changed = 0;
    for y in 0..10 {
        for x in 0..10 {
            if board.board[y][x] != start.board[y][x] {
                changed += 1;
            }
        }
    }
    assert_eq!(changed, 2);
}

#[test]
fn resolve_attack_agrees_with_process_attack() {
    let start = board_with(&[
        (ShipType::CarrierVertical, 0, 0),
        (ShipType::DestroyerHorizontal, 9, 8),
    ]);
    let mut board = start;
    for (y, x) in [(0, 0), (9, 9), (4, 4), (9, 8), (0, 0), (1, 0)] {
        let position = Position::new(y, x);
        let expected = process_attack(board, position);
        let mut by_hand = board;
        record_attack(&mut by_hand, position, &expected);
        let feedback = resolve_attack(&mut board, position);
        assert_eq!(feedback, expected);
        assert_eq!(board, by_hand);
    }
}
