use battleship::game::place_ship_on_board;
use battleship::utils::ships::get_ship;
use battleship::{GameBoard, ShipType, Tile};

fn water() -> [[Tile; 10]; 10] {
    GameBoard::new().board
}

fn ship_cells(grid: &[[Tile; 10]; 10]) -> Vec<(usize, usize)> {
    let mut cells = Vec::new();
    for y in 0..10 {
        for x in 0..10 {
            if matches!(grid[y][x], Tile::Ship(_)) {
                cells.push((y, x));
            }
        }
    }
    cells
}

#[test]
fn horizontal_ship_runs_right() {
    let ship = get_ship(ShipType::CruiserHorizontal);
    let (placed, grid) = place_ship_on_board(water(), &ship, 2, 3, false);
    assert!(placed);
    assert_eq!(ship_cells(&grid), vec![(2, 3), (2, 4), (2, 5)]);
    for x in 3..6 {
        assert_eq!(grid[2][x], Tile::Ship(ShipType::CruiserHorizontal));
    }
}

#[test]
fn vertical_ship_runs_down() {
    let ship = get_ship(ShipType::BattleshipVertical);
    let (placed, grid) = place_ship_on_board(water(), &ship, 6, 9, false);
    assert!(placed);
    assert_eq!(ship_cells(&grid), vec![(6, 9), (7, 9), (8, 9), (9, 9)]);
    for y in 6..10 {
        assert_eq!(grid[y][9], Tile::Ship(ShipType::BattleshipVertical));
    }
}

#[test]
fn horizontal_ship_must_end_on_the_grid() {
    let ship = get_ship(ShipType::CarrierHorizontal);
    let (placed, grid) = place_ship_on_board(water(), &ship, 0, 5, false);
    assert!(placed);
    assert_eq!(ship_cells(&grid).len(), 5);
    let (placed, grid) = place_ship_on_board(water(), &ship, 0, 6, false);
    assert!(!placed);
    assert_eq!(grid, water());
    let (placed, grid) = place_ship_on_board(water(), &ship, 0, 9, true);
    assert!(!placed);
    assert_eq!(grid, water());
}

#[test]
fn vertical_ship_must_end_on_the_grid() {
    let ship = get_ship(ShipType::DestroyerVertical);
    let (placed, _) = place_ship_on_board(water(), &ship, 8, 0, false);
    assert!(placed);
    let (placed, grid) = place_ship_on_board(water(), &ship, 9, 0, false);
    assert!(!placed);
    assert_eq!(grid, water());
}

#[test]
fn first_cell_off_the_grid_is_refused() {
    let across = get_ship(ShipType::DestroyerHorizontal);
    let down = get_ship(ShipType::DestroyerVertical);
    for render in [false, true] {
        assert_eq!(place_ship_on_board(water(), &across, 10, 0, render), (false, water()));
        assert_eq!(place_ship_on_board(water(), &across, 0, 10, render), (false, water()));
        assert_eq!(place_ship_on_board(water(), &down, 0, 10, render), (false, water()));
        assert_eq!(place_ship_on_board(water(), &down, 10, 0, render), (false, water()));
        assert_eq!(
            place_ship_on_board(water(), &across, usize::MAX, usize::MAX, render),
            (false, water())
        );
        assert_eq!(place_ship_on_board(water(), &down, 3, usize::MAX, render), (false, water()));
        assert_eq!(place_ship_on_board(water(), &across, usize::MAX, 3, render), (false, water()));
    }
}

#[test]
fn overlap_is_refused() {
    let carrier = get_ship(ShipType::CarrierHorizontal);
    let (_, grid) = place_ship_on_board(water(), &carrier, 4, 2, false);
    let cruiser = get_ship(ShipType::CruiserVertical);
    let (placed, after) = place_ship_on_board(grid, &cruiser, 2, 4, false);
    assert!(!placed);
    assert_eq!(after, grid);
    let (placed, after) = place_ship_on_board(grid, &cruiser, 4, 6, false);
    assert!(!placed);
    assert_eq!(after, grid);
    let (placed, _) = place_ship_on_board(grid, &cruiser, 4, 7, false);
    assert!(placed);
}

#[test]
fn ships_may_touch() {
    let carrier = get_ship(ShipType::CarrierHorizontal);
    let (_, grid) = place_ship_on_board(water(), &carrier, 4, 2, false);
    let destroyer = get_ship(ShipType::DestroyerHorizontal);
    let (placed, after) = place_ship_on_board(grid, &destroyer, 5, 2, false);
    assert!(placed);
    assert_eq!(ship_cells(&after).len(), 7);
    let (placed, _) = place_ship_on_board(grid, &destroyer, 4, 7, false);
    assert!(placed);
}

#[test]
fn any_marked_cell_blocks_a_placement() {
    for mark in [Tile::Hit, Tile::Miss, Tile::Targeted, Tile::AlreadyAttacked] {
        let mut grid = water();
        grid[0][1] = mark;
        let destroyer = get_ship(ShipType::DestroyerHorizontal);
        assert_eq!(place_ship_on_board(grid, &destroyer, 0, 0, false), (false, grid));
        assert_eq!(place_ship_on_board(grid, &destroyer, 0, 1, false), (false, grid));
        assert!(place_ship_on_board(grid, &destroyer, 0, 2, false).0);
    }
}

#[test]
fn render_draws_over_occupied_cells() {
    let carrier = get_ship(ShipType::CarrierHorizontal);
    let (_, grid) = place_ship_on_board(water(), &carrier, 4, 2, false);
    let cruiser = get_ship(ShipType::CruiserVertical);
    let (placed, after) = place_ship_on_board(grid, &cruiser, 3, 4, true);
    assert!(placed);
    assert_eq!(after[3][4], Tile::Ship(ShipType::CruiserVertical));
    assert_eq!(after[4][4], Tile::Ship(ShipType::CruiserVertical));
    assert_eq!(after[5][4], Tile::Ship(ShipType::CruiserVertical));
    assert_eq!(after[4][3], Tile::Ship(ShipType::CarrierHorizontal));
    assert_eq!(after[4][5], Tile::Ship(ShipType::CarrierHorizontal));
    assert_eq!(ship_cells(&after).len(), 7);
}

#[test]
fn placement_goes_by_the_ship_type() {
    let odd = battleship::Ship::new(
        ShipType::SubmarineVertical,
        battleship::ShipOrientation::Horizontal,
    );
    let (placed, grid) = place_ship_on_board(water(), &odd, 1, 8, false);
    assert!(placed);
    assert_eq!(ship_cells(&grid), vec![(1, 8), (2, 8), (3, 8)]);
}

#[test]
fn other_cells_stay_as_they_were() {
    let mut grid = water();
    grid[9][9] = Tile::Miss;
    grid[0][0] = Tile::Hit;
    let ship = get_ship(ShipType::SubmarineHorizontal);
    let (placed, after) = place_ship_on_board(grid, &ship, 5, 5, false);
    assert!(placed);
    for y in 0..10 {
        for x in 0..10 {
            if y == 5 && (5..8).contains(&x) {
                assert_eq!(after[y][x], Tile::Ship(ShipType::SubmarineHorizontal));
            } else {
                assert_eq!(after[y][x], grid[y][x]);
            }
        }
    }
}
