use rustris::cellmatrix::{Cell, CellMatrix, CellVec};
use rustris::tetromino::{Shape, Tetromino};

#[test]
fn shape_table_builds_the_horizontal_bar() {
    for shape in [
        Shape::IBlock,
        Shape::OBlock,
        Shape::TBlock,
        Shape::SBlock,
        Shape::ZBlock,
        Shape::JBlock,
        Shape::LBlock,
    ] {
        let m = Tetromino::build_matrix(&shape);
        assert_eq!(m.width, 4);
        assert_eq!(m.height, 4);
        for y in 0..4 {
            for x in 0..4 {
                let expected = if y == 1 { Cell::Occupied } else { Cell::Unoccupied };
                assert_eq!(m.get_cell(x, y), expected);
            }
        }
    }
}

#[test]
fn spawn_sets_shape_and_position() {
    let piece = Tetromino::new(Shape::LBlock, CellVec::new(3, 0));
    assert_eq!(piece.shape, Shape::LBlock);
    assert_eq!(piece.cell_position, CellVec::new(3, 0));
    assert_eq!(piece.matrix.get_cell(0, 1), Cell::Occupied);
}

#[test]
fn set_position_reassigns_the_origin() {
    let mut piece = Tetromino::new(Shape::TBlock, CellVec::new(3, 0));
    piece.set_position(CellVec::new(5, 7));
    assert_eq!(piece.cell_position, CellVec::new(5, 7));
    assert_eq!(piece.shape, Shape::TBlock);
}

#[test]
fn try_move_commits_on_clear_and_keeps_state_on_collision() {
    let board = CellMatrix::new(10, 22);
    let mut piece = Tetromino::new(Shape::IBlock, CellVec::new(0, 0));
    // Moving left would put the bar's leftmost cell at x = -1: rejected,
    // position untouched.
    assert!(!piece.try_move(&board, CellVec::new(-1, 0)));
    assert_eq!(piece.cell_position, CellVec::new(0, 0));
    // Moving right is clear: committed.
    assert!(piece.try_move(&board, CellVec::new(1, 0)));
    assert_eq!(piece.cell_position, CellVec::new(1, 0));
    // Moving down is clear too.
    assert!(piece.try_move(&board, CellVec::new(0, 5)));
    assert_eq!(piece.cell_position, CellVec::new(1, 5));
}

#[test]
fn try_move_is_blocked_by_occupied_terrain() {
    let mut board = CellMatrix::new(10, 22);
    board.set_cell(4, 3, Cell::Occupied);
    let mut piece = Tetromino::new(Shape::IBlock, CellVec::new(3, 1));
    // Down by one covers board cells (3..7, 3), including the occupied one.
    assert!(!piece.try_move(&board, CellVec::new(0, 1)));
    assert_eq!(piece.cell_position, CellVec::new(3, 1));
}

#[test]
fn rotate_right_turns_the_bar_vertical() {
    let mut piece = Tetromino::new(Shape::IBlock, CellVec::new(3, 0));
    piece.rotate_right();
    // dst(x, y) = src(y, 3 - x): occupied iff 3 - x == 1, the column x = 2.
    for y in 0..4 {
        for x in 0..4 {
            let expected = if x == 2 { Cell::Occupied } else { Cell::Unoccupied };
            assert_eq!(piece.matrix.get_cell(x, y), expected);
        }
    }
}

#[test]
fn rotate_left_turns_the_bar_vertical_the_other_way() {
    let mut piece = Tetromino::new(Shape::IBlock, CellVec::new(3, 0));
    piece.rotate_left();
    // dst(x, y) = src(3 - y, x): occupied iff x == 1, the column x = 1.
    for y in 0..4 {
        for x in 0..4 {
            let expected = if x == 1 { Cell::Occupied } else { Cell::Unoccupied };
            assert_eq!(piece.matrix.get_cell(x, y), expected);
        }
    }
}

#[test]
fn try_rotate_right_commits_when_clear() {
    let board = CellMatrix::new(10, 22);
    let mut piece = Tetromino::new(Shape::IBlock, CellVec::new(3, 0));
    assert!(piece.try_rotate_right(&board));
    assert_eq!(piece.cell_position, CellVec::new(3, 0));
    assert_eq!(piece.matrix.get_cell(2, 0), Cell::Occupied);
    assert_eq!(piece.matrix.get_cell(0, 1), Cell::Unoccupied);
}

#[test]
fn try_rotate_right_rejects_a_blocked_rotation() {
    let board = CellMatrix::new(10, 22);
    // At x = 8 the rotated bar's column (local x = 2) would land at board
    // x = 10, outside a 10-wide board: the rotation is rejected and the
    // grid is left untouched.
    let mut piece = Tetromino::new(Shape::IBlock, CellVec::new(8, 0));
    assert!(!piece.try_rotate_right(&board));
    for x in 0..4 {
        assert_eq!(piece.matrix.get_cell(x, 1), Cell::Occupied);
    }
}

#[test]
fn try_rotate_left_rejects_when_blocked_by_terrain() {
    let mut board = CellMatrix::new(10, 22);
    // The left-rotated bar occupies the local column x = 1, board column 4.
    board.set_cell(4, 2, Cell::Occupied);
    let mut piece = Tetromino::new(Shape::IBlock, CellVec::new(3, 0));
    assert!(!piece.try_rotate_left(&board));
    assert_eq!(piece.matrix.get_cell(0, 1), Cell::Occupied);
    // With the blocking cell elsewhere the same rotation goes through.
    let clear_board = CellMatrix::new(10, 22);
    assert!(piece.try_rotate_left(&clear_board));
    assert_eq!(piece.matrix.get_cell(1, 0), Cell::Occupied);
}
