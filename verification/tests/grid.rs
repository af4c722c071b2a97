use rustris::cellmatrix::{Cell, CellMatrix, CellVec};
use rustris::tetromino::{Shape, Tetromino};

fn bar_piece() -> CellMatrix {
    Tetromino::build_matrix(&Shape::IBlock)
}

#[test]
fn new_grid_is_all_unoccupied() {
    let grid = CellMatrix::new(3, 2);
    assert_eq!(grid.width, 3);
    assert_eq!(grid.height, 2);
    for y in 0..2 {
        for x in 0..3 {
            assert_eq!(grid.get_cell(x, y), Cell::Unoccupied);
        }
    }
}

#[test]
fn set_cell_changes_only_that_cell() {
    let mut grid = CellMatrix::new(3, 3);
    grid.set_cell(1, 2, Cell::Occupied);
    for y in 0..3 {
        for x in 0..3 {
            let expected = if x == 1 && y == 2 { Cell::Occupied } else { Cell::Unoccupied };
            assert_eq!(grid.get_cell(x, y), expected);
        }
    }
    grid.set_cell(1, 2, Cell::Unoccupied);
    assert_eq!(grid.get_cell(1, 2), Cell::Unoccupied);
}

#[test]
fn rotate_right_swaps_dimensions_and_remaps_cells() {
    // 2 wide, 3 tall; occupy (0, 0) and (1, 2).
    let mut grid = CellMatrix::new(2, 3);
    grid.set_cell(0, 0, Cell::Occupied);
    grid.set_cell(1, 2, Cell::Occupied);
    grid.rotate_right();
    assert_eq!(grid.width, 3);
    assert_eq!(grid.height, 2);
    // dst(x, y) = src(y, old_height - 1 - x), old_height = 3.
    for y in 0..2 {
        for x in 0..3 {
            let (sx, sy) = (y, 2 - x);
            let expected = if (sx, sy) == (0, 0) || (sx, sy) == (1, 2) {
                Cell::Occupied
            } else {
                Cell::Unoccupied
            };
            assert_eq!(grid.get_cell(x, y), expected);
        }
    }
}

#[test]
fn rotate_left_swaps_dimensions_and_remaps_cells() {
    // 2 wide, 3 tall; occupy (0, 0) and (1, 2).
    let mut grid = CellMatrix::new(2, 3);
    grid.set_cell(0, 0, Cell::Occupied);
    grid.set_cell(1, 2, Cell::Occupied);
    grid.rotate_left();
    assert_eq!(grid.width, 3);
    assert_eq!(grid.height, 2);
    // dst(x, y) = src(old_width - 1 - y, x), old_width = 2.
    for y in 0..2 {
        for x in 0..3 {
            let (sx, sy) = (1 - y, x);
            let expected = if (sx, sy) == (0, 0) || (sx, sy) == (1, 2) {
                Cell::Occupied
            } else {
                Cell::Unoccupied
            };
            assert_eq!(grid.get_cell(x, y), expected);
        }
    }
}

#[test]
fn rotate_right_then_left_round_trips() {
    let mut grid = CellMatrix::new(3, 2);
    grid.set_cell(0, 0, Cell::Occupied);
    grid.set_cell(2, 1, Cell::Occupied);
    grid.set_cell(1, 1, Cell::Occupied);
    let original: Vec<Vec<Cell>> = grid.matrix.clone();
    grid.rotate_right();
    grid.rotate_left();
    assert_eq!(grid.width, 3);
    assert_eq!(grid.height, 2);
    for y in 0..2 {
        for x in 0..3 {
            assert_eq!(grid.get_cell(x, y), original[y as usize][x as usize]);
        }
    }
}

#[test]
fn rotate_left_then_right_round_trips() {
    let mut grid = CellMatrix::new(4, 1);
    grid.set_cell(2, 0, Cell::Occupied);
    let original: Vec<Vec<Cell>> = grid.matrix.clone();
    grid.rotate_left();
    grid.rotate_right();
    assert_eq!(grid.width, 4);
    assert_eq!(grid.height, 1);
    for x in 0..4 {
        assert_eq!(grid.get_cell(x, 0), original[0][x as usize]);
    }
}

#[test]
fn zero_sized_grid_rotates() {
    let mut grid = CellMatrix::new(0, 5);
    grid.rotate_right();
    assert_eq!(grid.width, 5);
    assert_eq!(grid.height, 0);
    grid.rotate_left();
    assert_eq!(grid.width, 0);
    assert_eq!(grid.height, 5);
}

#[test]
fn collides_when_any_occupied_cell_leaves_the_board() {
    let board = CellMatrix::new(10, 22);
    let piece = bar_piece();
    // The bar occupies local (0..4, 1); offset (-1, 0) puts (0, 1) at x = -1.
    assert!(piece.collides(&board, CellVec::new(-1, 0)));
    // Offset (7, 0) puts (3, 1) at x = 10.
    assert!(piece.collides(&board, CellVec::new(7, 0)));
    // Offset (3, 21) puts the bar's row at y = 22.
    assert!(piece.collides(&board, CellVec::new(3, 21)));
    // Offset (3, -2) puts the bar's row at y = -1.
    assert!(piece.collides(&board, CellVec::new(3, -2)));
}

#[test]
fn no_collision_within_bounds_of_empty_board() {
    let board = CellMatrix::new(10, 22);
    let piece = bar_piece();
    assert!(!piece.collides(&board, CellVec::new(0, 0)));
    assert!(!piece.collides(&board, CellVec::new(6, 0)));
    assert!(!piece.collides(&board, CellVec::new(3, 20)));
    // Empty local cells may hang over the edge: the bar's row is y = 1, so
    // offset y = -1 keeps every occupied cell inside.
    assert!(!piece.collides(&board, CellVec::new(3, -1)));
}

#[test]
fn collides_with_an_occupied_board_cell() {
    let mut board = CellMatrix::new(10, 22);
    board.set_cell(2, 1, Cell::Occupied);
    let piece = bar_piece();
    // At offset (2, 0) the bar covers board cells (2..6, 1).
    assert!(piece.collides(&board, CellVec::new(2, 0)));
    // At offset (3, 0) it covers (3..7, 1), missing the occupied cell.
    assert!(!piece.collides(&board, CellVec::new(3, 0)));
}

#[test]
fn piece_with_no_occupied_cell_never_collides() {
    let board = CellMatrix::new(10, 22);
    let empty = CellMatrix::new(4, 4);
    assert!(!empty.collides(&board, CellVec::new(-50, -50)));
    assert!(!empty.collides(&board, CellVec::new(100, 100)));
}
