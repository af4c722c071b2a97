//! A piece: a shape tag, the shape's rotation-mutable local occupancy grid,
//! and the board coordinate of that grid's origin.

use vstd::prelude::*;
use crate::cellmatrix::{
    collides_spec, grid_collides, is_rotation_left, is_rotation_right, rotated_left_grid,
    rotated_right_grid, Cell, CellMatrix, CellVec,
};

verus! {

/// The closed set of piece identifiers. A shape is only a tag selecting the
/// spawn-orientation occupancy pattern; it carries no state of its own.
#[derive(Copy, Clone, Debug, PartialEq, Eq, Structural)]
pub enum Shape {
    IBlock,
    OBlock,
    TBlock,
    SBlock,
    ZBlock,
    JBlock,
    LBlock,
}

/// A piece on the board. A board cell `(bx, by)` is covered by the piece iff
/// the local coordinate `(bx - cell_position.x, by - cell_position.y)` is in
/// range for `matrix` and occupied there.
pub struct Tetromino {
    pub shape: Shape,
    /// Board coordinate of the local grid's top-left origin.
    pub cell_position: CellVec,
    /// The piece's local occupancy grid; rotation rebuilds it in place.
    pub matrix: CellMatrix,
}

/// The spawn-orientation pattern every shape currently receives: a 4 x 4
/// grid whose second row is fully occupied, a horizontal four-cell bar.
/// The shape table wires this single entry for all seven tags; the full set
/// of canonical per-shape patterns is an open design item.
pub open spec fn is_spawn_grid(m: CellMatrix) -> bool {
    &&& m.wf()
    &&& m.width == 4
    &&& m.height == 4
    &&& forall|x: int, y: int|
        0 <= x < 4 && 0 <= y < 4 ==> #[trigger] m.cell(x, y) == (if y == 1 {
            Cell::Occupied
        } else {
            Cell::Unoccupied
        })
}

/// Both coordinates of `pos` moved by `(dx, dy)` stay within `i8`'s range,
/// so the moved position is representable.
pub open spec fn candidate_fits(pos: CellVec, dx: int, dy: int) -> bool {
    &&& i8::MIN <= pos.x + dx <= i8::MAX
    &&& i8::MIN <= pos.y + dy <= i8::MAX
}

/// The position `pos` moved by `(dx, dy)`; meaningful when
/// `candidate_fits(pos, dx, dy)` holds.
pub open spec fn move_candidate(pos: CellVec, dx: int, dy: int) -> CellVec {
    CellVec { x: (pos.x + dx) as i8, y: (pos.y + dy) as i8 }
}

/// The piece's grid, turned a quarter turn clockwise, would collide with
/// `board` at the piece's current position.
pub open spec fn rotation_right_blocked(piece: Tetromino, board: CellMatrix) -> bool {
    grid_collides(
        rotated_right_grid(piece.matrix@, piece.matrix.width as int, piece.matrix.height as int),
        piece.matrix.height as int,
        piece.matrix.width as int,
        board,
        piece.cell_position.x as int,
        piece.cell_position.y as int,
    )
}

/// The piece's grid, turned a quarter turn counter-clockwise, would collide
/// with `board` at the piece's current position.
pub open spec fn rotation_left_blocked(piece: Tetromino, board: CellMatrix) -> bool {
    grid_collides(
        rotated_left_grid(piece.matrix@, piece.matrix.width as int, piece.matrix.height as int),
        piece.matrix.height as int,
        piece.matrix.width as int,
        board,
        piece.cell_position.x as int,
        piece.cell_position.y as int,
    )
}

impl Tetromino {
    /// The piece's grid matches its recorded dimensions.
    pub open spec fn wf(self) -> bool {
        self.matrix.wf()
    }

    /// The shape table: the spawn-orientation local grid for `shape`.
    pub fn build_matrix(shape: &Shape) -> (m: CellMatrix)
        ensures
            is_spawn_grid(m),
    {
        let mut m = CellMatrix::new(4, 4);
        m.set_cell(0, 1, Cell::Occupied);
        m.set_cell(1, 1, Cell::Occupied);
        m.set_cell(2, 1, Cell::Occupied);
        m.set_cell(3, 1, Cell::Occupied);
        m
    }

    /// Spawns a piece of the given shape with its local grid built from the
    /// shape table and its origin at `cell_position`.
    pub fn new(shape: Shape, cell_position: CellVec) -> (t: Tetromino)
        ensures
            t.wf(),
            t.shape == shape,
            t.cell_position == cell_position,
            is_spawn_grid(t.matrix),
    {
        let matrix = Tetromino::build_matrix(&shape);
        Tetromino { shape, cell_position, matrix }
    }

    /// Reassigns the piece's board position. The caller is expected to have
    /// cleared the move with the collision oracle; `try_move` does both.
    pub fn set_position(&mut self, position: CellVec)
        ensures
            final(self).cell_position == position,
            final(self).shape == old(self).shape,
            final(self).matrix == old(self).matrix,
    {
        self.cell_position = position;
    }

    /// Turns the piece's local grid a quarter turn clockwise, without
    /// consulting the board. Position and shape are untouched.
    pub fn rotate_right(&mut self)
        requires
            old(self).wf(),
        ensures
            final(self).shape == old(self).shape,
            final(self).cell_position == old(self).cell_position,
            is_rotation_right(old(self).matrix, final(self).matrix),
    {
        self.matrix.rotate_right();
    }

    /// Turns the piece's local grid a quarter turn counter-clockwise,
    /// without consulting the board. Position and shape are untouched.
    pub fn rotate_left(&mut self)
        requires
            old(self).wf(),
        ensures
            final(self).shape == old(self).shape,
            final(self).cell_position == old(self).cell_position,
            is_rotation_left(old(self).matrix, final(self).matrix),
    {
        self.matrix.rotate_left();
    }

    /// Whether placing this piece's grid at `offset` collides with `board`.
    pub fn collides(&self, board: &CellMatrix, offset: CellVec) -> (hit: bool)
        requires
            self.wf(),
            board.wf(),
        ensures
            hit == collides_spec(self.matrix, *board, offset),
    {
        self.matrix.collides(board, offset)
    }

    /// Moves the piece by `delta` if the moved placement is collision-free:
    /// the position is reassigned only after the collision check passes, and
    /// is left untouched otherwise. A rejected move is a normal outcome, not
    /// an error. The moved position must be representable.
    pub fn try_move(&mut self, board: &CellMatrix, delta: CellVec) -> (moved: bool)
        requires
            old(self).wf(),
            board.wf(),
            candidate_fits(old(self).cell_position, delta.x as int, delta.y as int),
        ensures
            final(self).shape == old(self).shape,
            final(self).matrix == old(self).matrix,
            moved == !collides_spec(
                old(self).matrix,
                *board,
                move_candidate(old(self).cell_position, delta.x as int, delta.y as int),
            ),
            moved ==> final(self).cell_position == move_candidate(
                old(self).cell_position,
                delta.x as int,
                delta.y as int,
            ),
            !moved ==> final(self).cell_position == old(self).cell_position,
    {
        let cx: i16 = self.cell_position.x as i16 + delta.x as i16;
        let cy: i16 = self.cell_position.y as i16 + delta.y as i16;
        let candidate = CellVec { x: cx as i8, y: cy as i8 };
        if !self.matrix.collides(board, candidate) {
            self.cell_position = candidate;
            true
        } else {
            false
        }
    }

    /// Rotates the piece a quarter turn clockwise if the rotated grid is
    /// collision-free at the current position: the rotation is applied to a
    /// fresh grid and committed only after the collision check passes, so a
    /// blocked rotation leaves the piece untouched.
    pub fn try_rotate_right(&mut self, board: &CellMatrix) -> (rotated: bool)
        requires
            old(self).wf(),
            board.wf(),
        ensures
            final(self).shape == old(self).shape,
            final(self).cell_position == old(self).cell_position,
            rotated == !rotation_right_blocked(*old(self), *board),
            rotated ==> is_rotation_right(old(self).matrix, final(self).matrix),
            !rotated ==> final(self).matrix == old(self).matrix,
    {
        let rotated_matrix = self.matrix.rotated_right();
        let hit = rotated_matrix.collides(board, self.cell_position);
        proof {
            crate::cellmatrix::lemma_collides_spec_as_grid(
                rotated_matrix,
                *board,
                self.cell_position,
            );
        }
        if !hit {
            self.matrix = rotated_matrix;
            true
        } else {
            false
        }
    }

    /// Rotates the piece a quarter turn counter-clockwise if the rotated
    /// grid is collision-free at the current position, as `try_rotate_right`
    /// does for the clockwise turn.
    pub fn try_rotate_left(&mut self, board: &CellMatrix) -> (rotated: bool)
        requires
            old(self).wf(),
            board.wf(),
        ensures
            final(self).shape == old(self).shape,
            final(self).cell_position == old(self).cell_position,
            rotated == !rotation_left_blocked(*old(self), *board),
            rotated ==> is_rotation_left(old(self).matrix, final(self).matrix),
            !rotated ==> final(self).matrix == old(self).matrix,
    {
        let rotated_matrix = self.matrix.rotated_left();
        let hit = rotated_matrix.collides(board, self.cell_position);
        proof {
            crate::cellmatrix::lemma_collides_spec_as_grid(
                rotated_matrix,
                *board,
                self.cell_position,
            );
        }
        if !hit {
            self.matrix = rotated_matrix;
            true
        } else {
            false
        }
    }
}

} // verus!
