//! Fixed-size rectangular occupancy grids with quarter-turn rotation and
//! the collision oracle between a piece's local grid and the board.

use vstd::prelude::*;

verus! {

/// Occupancy of a single grid cell.
#[derive(Copy, Clone, Debug, PartialEq, Eq, Structural)]
pub enum Cell {
    Occupied,
    Unoccupied,
}

/// A two-dimensional cell-space vector: either a board coordinate of a
/// piece's local origin or a movement delta, measured in cells.
#[derive(Copy, Clone, Debug, PartialEq, Eq, Structural)]
pub struct CellVec {
    pub x: i8,
    pub y: i8,
}

impl CellVec {
    pub fn new(x: i8, y: i8) -> (v: CellVec)
        ensures
            v.x == x,
            v.y == y,
    {
        CellVec { x, y }
    }
}

/// A `width x height` table of cells. Row `y` of the view holds the cells of
/// grid row `y`, so the cell at column `x`, row `y` is `self@[y][x]`.
///
/// The same type serves both the board (for example 10 x 22) and a piece's
/// local shape grid (typically 4 x 4).
pub struct CellMatrix {
    pub width: u8,
    pub height: u8,
    pub matrix: Vec<Vec<Cell>>,
}

impl View for CellMatrix {
    type V = Seq<Seq<Cell>>;

    closed spec fn view(&self) -> Seq<Seq<Cell>> {
        self.matrix@.map_values(|row: Vec<Cell>| row@)
    }
}

/// The view of a `w x h` grid `g` after a quarter turn clockwise: `h` wide
/// and `w` tall, with destination cell `(x, y)` (that is, entry `[y][x]`)
/// drawn from source cell `(y, h - 1 - x)`.
pub open spec fn rotated_right_grid(g: Seq<Seq<Cell>>, w: int, h: int) -> Seq<Seq<Cell>> {
    Seq::new(w as nat, |ny: int| Seq::new(h as nat, |nx: int| g[h - 1 - nx][ny]))
}

/// The view of a `w x h` grid `g` after a quarter turn counter-clockwise:
/// `h` wide and `w` tall, with destination cell `(x, y)` drawn from source
/// cell `(w - 1 - y, x)`.
pub open spec fn rotated_left_grid(g: Seq<Seq<Cell>>, w: int, h: int) -> Seq<Seq<Cell>> {
    Seq::new(w as nat, |ny: int| Seq::new(h as nat, |nx: int| g[nx][w - 1 - ny]))
}

/// `post` holds `pre` turned a quarter turn clockwise: dimensions swap and
/// the cell at destination `(x, y)` comes from source `(y, height - 1 - x)`.
pub open spec fn is_rotation_right(pre: CellMatrix, post: CellMatrix) -> bool {
    &&& post.wf()
    &&& post.width == pre.height
    &&& post.height == pre.width
    &&& post@ == rotated_right_grid(pre@, pre.width as int, pre.height as int)
    &&& forall|x: int, y: int|
        0 <= x < post.width && 0 <= y < post.height ==> #[trigger] post.cell(x, y) == pre.cell(
            y,
            pre.height - 1 - x,
        )
}

/// `post` holds `pre` turned a quarter turn counter-clockwise: dimensions
/// swap and the cell at destination `(x, y)` comes from source
/// `(width - 1 - y, x)`.
pub open spec fn is_rotation_left(pre: CellMatrix, post: CellMatrix) -> bool {
    &&& post.wf()
    &&& post.width == pre.height
    &&& post.height == pre.width
    &&& post@ == rotated_left_grid(pre@, pre.width as int, pre.height as int)
    &&& forall|x: int, y: int|
        0 <= x < post.width && 0 <= y < post.height ==> #[trigger] post.cell(x, y) == pre.cell(
            pre.width - 1 - y,
            x,
        )
}

/// The board either has no cell at `(bx, by)` or that cell is occupied;
/// placing an occupied piece cell there is a collision.
pub open spec fn board_blocked(board: CellMatrix, bx: int, by: int) -> bool {
    ||| !(0 <= bx < board.width as int && 0 <= by < board.height as int)
    ||| board.cell(bx, by) == Cell::Occupied
}

/// Some occupied cell of the piece grid, placed at `offset`, lands outside
/// the board or on an occupied board cell. A piece with no occupied cell
/// never collides.
pub open spec fn collides_spec(piece: CellMatrix, board: CellMatrix, offset: CellVec) -> bool {
    exists|x: int, y: int|
        0 <= x < piece.width && 0 <= y < piece.height && #[trigger] piece.cell(x, y)
            == Cell::Occupied && board_blocked(board, x + offset.x, y + offset.y)
}

/// The same collision test stated over a bare grid view of `w` columns and
/// `h` rows, for speaking about grids that exist only as views, such as the
/// rotation image of a piece's grid.
pub open spec fn grid_collides(
    g: Seq<Seq<Cell>>,
    w: int,
    h: int,
    board: CellMatrix,
    ox: int,
    oy: int,
) -> bool {
    exists|x: int, y: int|
        0 <= x < w && 0 <= y < h && #[trigger] g[y][x] == Cell::Occupied && board_blocked(
            board,
            x + ox,
            y + oy,
        )
}

/// Every cell of the board is unoccupied.
pub open spec fn all_unoccupied(board: CellMatrix) -> bool {
    forall|x: int, y: int|
        0 <= x < board.width && 0 <= y < board.height ==> #[trigger] board.cell(x, y)
            == Cell::Unoccupied
}

/// Every occupied cell of the piece grid, placed at `offset`, lands inside
/// the board's bounds.
pub open spec fn fits_on_board(piece: CellMatrix, board: CellMatrix, offset: CellVec) -> bool {
    forall|x: int, y: int|
        0 <= x < piece.width && 0 <= y < piece.height && #[trigger] piece.cell(x, y)
            == Cell::Occupied ==> 0 <= x + offset.x < board.width as int && 0 <= y + offset.y
            < board.height as int
}

impl CellMatrix {
    /// The stored rows match the recorded dimensions.
    pub open spec fn wf(self) -> bool {
        &&& self@.len() == self.height as int
        &&& forall|y: int| 0 <= y < self@.len() ==> (#[trigger] self@[y]).len() == self.width as int
    }

    /// The occupancy of the cell in column `x` of row `y`.
    pub open spec fn cell(self, x: int, y: int) -> Cell {
        self@[y][x]
    }

    /// A `width x height` grid with every cell unoccupied.
    pub fn new(width: u8, height: u8) -> (grid: CellMatrix)
        ensures
            grid.wf(),
            grid.width == width,
            grid.height == height,
            all_unoccupied(grid),
    {
        let mut matrix: Vec<Vec<Cell>> = Vec::new();
        let mut y: u8 = 0;
        while y < height
            invariant
                y <= height,
                matrix@.len() == y as int,
                forall|j: int| 0 <= j < y as int ==> (#[trigger] matrix@[j])@.len() == width as int,
                forall|j: int, i: int|
                    0 <= j < y as int && 0 <= i < width as int ==> #[trigger] matrix@[j]@[i]
                        == Cell::Unoccupied,
            decreases height - y,
        {
            let mut row: Vec<Cell> = Vec::new();
            let mut x: u8 = 0;
            while x < width
                invariant
                    x <= width,
                    row@.len() == x as int,
                    forall|i: int| 0 <= i < x as int ==> #[trigger] row@[i] == Cell::Unoccupied,
                decreases width - x,
            {
                row.push(Cell::Unoccupied);
                x = x + 1;
            }
            matrix.push(row);
            y = y + 1;
        }
        let grid = CellMatrix { width, height, matrix };
        assert forall|x: int, yy: int|
            0 <= x < width && 0 <= yy < height implies #[trigger] grid.cell(x, yy)
            == Cell::Unoccupied by {
            assert(grid@[yy] == grid.matrix@[yy]@);
        }
        grid
    }

    /// Reads the cell at `(x, y)`; the coordinate must be in range.
    pub fn get_cell(&self, x: u8, y: u8) -> (c: Cell)
        requires
            self.wf(),
            x < self.width,
            y < self.height,
        ensures
            c == self.cell(x as int, y as int),
    {
        proof {
            assert(self@[y as int] == self.matrix@[y as int]@);
        }
        self.matrix[y as usize][x as usize]
    }

    /// Writes the cell at `(x, y)`; the coordinate must be in range. Every
    /// other cell and the dimensions are unchanged.
    pub fn set_cell(&mut self, x: u8, y: u8, cell: Cell)
        requires
            old(self).wf(),
            x < old(self).width,
            y < old(self).height,
        ensures
            final(self).wf(),
            final(self).width == old(self).width,
            final(self).height == old(self).height,
            final(self).cell(x as int, y as int) == cell,
            forall|i: int, j: int|
                0 <= i < old(self).width && 0 <= j < old(self).height && !(i == x as int && j
                    == y as int) ==> #[trigger] final(self).cell(i, j) == old(self).cell(i, j),
    {
        proof {
            assert(self@[y as int] == self.matrix@[y as int]@);
        }
        let row: &mut Vec<Cell> = &mut self.matrix[y as usize];
        row[x as usize] = cell;
        proof {
            assert forall|j: int| 0 <= j < self@.len() implies (#[trigger] self@[j]).len()
                == self.width as int by {
                assert(self@[j] == self.matrix@[j]@);
                assert(old(self)@[j] == old(self).matrix@[j]@);
                assert(old(self)@[j].len() == self.width as int);
            }
            assert forall|i: int, j: int|
                0 <= i < self.width && 0 <= j < self.height && !(i == x as int && j
                    == y as int) implies #[trigger] self.cell(i, j) == old(self).cell(i, j) by {
                assert(self@[j] == self.matrix@[j]@);
                assert(old(self)@[j] == old(self).matrix@[j]@);
            }
            assert(self@[y as int] == self.matrix@[y as int]@);
        }
    }

    /// A fresh grid holding this one turned a quarter turn clockwise.
    pub fn rotated_right(&self) -> (rotated: CellMatrix)
        requires
            self.wf(),
        ensures
            is_rotation_right(*self, rotated),
    {
        let mut temp = CellMatrix::new(self.height, self.width);
        let mut y: u8 = 0;
        while y < self.height
            invariant
                self.wf(),
                temp.wf(),
                temp.width == self.height,
                temp.height == self.width,
                y <= self.height,
                forall|cx: int, cy: int|
                    0 <= cx < y as int && 0 <= cy < temp.height ==> #[trigger] temp.cell(cx, cy)
                        == self.cell(cy, self.height - 1 - cx),
            decreases self.height - y,
        {
            let mut x: u8 = 0;
            while x < self.width
                invariant
                    self.wf(),
                    temp.wf(),
                    temp.width == self.height,
                    temp.height == self.width,
                    y < self.height,
                    x <= self.width,
                    forall|cx: int, cy: int|
                        0 <= cx < y as int && 0 <= cy < temp.height ==> #[trigger] temp.cell(
                            cx,
                            cy,
                        ) == self.cell(cy, self.height - 1 - cx),
                    forall|cy: int|
                        0 <= cy < x as int ==> #[trigger] temp.cell(y as int, cy) == self.cell(
                            cy,
                            self.height - 1 - y,
                        ),
                decreases self.width - x,
            {
                let src = self.get_cell(x, self.height - y - 1);
                temp.set_cell(y, x, src);
                x = x + 1;
            }
            y = y + 1;
        }
        proof {
            let rg = rotated_right_grid(self@, self.width as int, self.height as int);
            assert forall|ny: int| 0 <= ny < temp@.len() implies temp@[ny] =~= rg[ny] by {
                assert forall|nx: int| 0 <= nx < temp@[ny].len() implies temp@[ny][nx]
                    == self@[self.height - 1 - nx][ny] by {
                    assert(temp.cell(nx, ny) == self.cell(ny, self.height - 1 - nx));
                }
            }
            assert(temp@ =~~= rg);
        }
        temp
    }

    /// A fresh grid holding this one turned a quarter turn counter-clockwise.
    pub fn rotated_left(&self) -> (rotated: CellMatrix)
        requires
            self.wf(),
        ensures
            is_rotation_left(*self, rotated),
    {
        let mut temp = CellMatrix::new(self.height, self.width);
        let mut y: u8 = 0;
        while y < self.height
            invariant
                self.wf(),
                temp.wf(),
                temp.width == self.height,
                temp.height == self.width,
                y <= self.height,
                forall|cx: int, cy: int|
                    0 <= cx < y as int && 0 <= cy < temp.height ==> #[trigger] temp.cell(cx, cy)
                        == self.cell(self.width - 1 - cy, cx),
            decreases self.height - y,
        {
            let mut x: u8 = 0;
            while x < self.width
                invariant
                    self.wf(),
                    temp.wf(),
                    temp.width == self.height,
                    temp.height == self.width,
                    y < self.height,
                    x <= self.width,
                    forall|cx: int, cy: int|
                        0 <= cx < y as int && 0 <= cy < temp.height ==> #[trigger] temp.cell(
                            cx,
                            cy,
                        ) == self.cell(self.width - 1 - cy, cx),
                    forall|cy: int|
                        0 <= cy < x as int ==> #[trigger] temp.cell(y as int, cy) == self.cell(
                            self.width - 1 - cy,
                            y as int,
                        ),
                decreases self.width - x,
            {
                let src = self.get_cell(self.width - x - 1, y);
                temp.set_cell(y, x, src);
                x = x + 1;
            }
            y = y + 1;
        }
        proof {
            let rg = rotated_left_grid(self@, self.width as int, self.height as int);
            assert forall|ny: int| 0 <= ny < temp@.len() implies temp@[ny] =~= rg[ny] by {
                assert forall|nx: int| 0 <= nx < temp@[ny].len() implies temp@[ny][nx]
                    == self@[nx][self.width - 1 - ny] by {
                    assert(temp.cell(nx, ny) == self.cell(self.width - 1 - ny, nx));
                }
            }
            assert(temp@ =~~= rg);
        }
        temp
    }

    /// Turns the grid a quarter turn clockwise in place. Dimensions swap, so
    /// a fresh table is built rather than exchanging cells pairwise.
    pub fn rotate_right(&mut self)
        requires
            old(self).wf(),
        ensures
            is_rotation_right(*old(self), *final(self)),
    {
        let rotated = self.rotated_right();
        *self = rotated;
    }

    /// Turns the grid a quarter turn counter-clockwise in place.
    pub fn rotate_left(&mut self)
        requires
            old(self).wf(),
        ensures
            is_rotation_left(*old(self), *final(self)),
    {
        let rotated = self.rotated_left();
        *self = rotated;
    }

    /// Treats this grid as a piece's local grid placed on `board` with its
    /// origin at `offset`, and reports whether that placement collides:
    /// some occupied cell falls outside the board or onto an occupied board
    /// cell. Iteration order does not matter; the scan stops at the first
    /// violation.
    pub fn collides(&self, board: &CellMatrix, offset: CellVec) -> (hit: bool)
        requires
            self.wf(),
            board.wf(),
        ensures
            hit == collides_spec(*self, *board, offset),
    {
        let mut y: u8 = 0;
        while y < self.height
            invariant
                self.wf(),
                board.wf(),
                y <= self.height,
                forall|i: int, j: int|
                    0 <= i < self.width && 0 <= j < y as int && #[trigger] self.cell(i, j)
                        == Cell::Occupied ==> !board_blocked(*board, i + offset.x, j + offset.y),
            decreases self.height - y,
        {
            let mut x: u8 = 0;
            while x < self.width
                invariant
                    self.wf(),
                    board.wf(),
                    y < self.height,
                    x <= self.width,
                    forall|i: int, j: int|
                        0 <= i < self.width && 0 <= j < y as int && #[trigger] self.cell(i, j)
                            == Cell::Occupied ==> !board_blocked(
                            *board,
                            i + offset.x,
                            j + offset.y,
                        ),
                    forall|i: int|
                        0 <= i < x as int && #[trigger] self.cell(i, y as int) == Cell::Occupied
                            ==> !board_blocked(*board, i + offset.x, y as int + offset.y),
                decreases self.width - x,
            {
                match self.get_cell(x, y) {
                    Cell::Occupied => {
                        let bx: i32 = x as i32 + offset.x as i32;
                        let by: i32 = y as i32 + offset.y as i32;
                        if 0 <= bx && bx < board.width as i32 && 0 <= by && by < board.height
                            as i32 {
                            match board.get_cell(bx as u8, by as u8) {
                                Cell::Occupied => {
                                    return true;
                                },
                                Cell::Unoccupied => {},
                            }
                        } else {
                            return true;
                        }
                    },
                    Cell::Unoccupied => {},
                }
                x = x + 1;
            }
            y = y + 1;
        }
        false
    }
}

/// Whether a piece grid collides is determined by its view and dimensions:
/// `collides_spec` agrees with `grid_collides` on the piece's own view.
pub proof fn lemma_collides_spec_as_grid(piece: CellMatrix, board: CellMatrix, offset: CellVec)
    ensures
        collides_spec(piece, board, offset) == grid_collides(
            piece@,
            piece.width as int,
            piece.height as int,
            board,
            offset.x as int,
            offset.y as int,
        ),
{
    if collides_spec(piece, board, offset) {
        let (x, y) = choose|x: int, y: int|
            0 <= x < piece.width && 0 <= y < piece.height && #[trigger] piece.cell(x, y)
                == Cell::Occupied && board_blocked(board, x + offset.x, y + offset.y);
        assert(piece@[y][x] == Cell::Occupied);
        assert(grid_collides(
            piece@,
            piece.width as int,
            piece.height as int,
            board,
            offset.x as int,
            offset.y as int,
        ));
    }
    if grid_collides(
        piece@,
        piece.width as int,
        piece.height as int,
        board,
        offset.x as int,
        offset.y as int,
    ) {
        let (x, y) = choose|x: int, y: int|
            0 <= x < piece.width as int && 0 <= y < piece.height as int && #[trigger] piece@[y][x]
                == Cell::Occupied && board_blocked(board, x + offset.x, y + offset.y);
        assert(piece.cell(x, y) == Cell::Occupied);
        assert(collides_spec(piece, board, offset));
    }
}

/// Any occupied piece cell that `offset` places outside the board's bounds
/// makes the placement collide.
pub proof fn lemma_out_of_bounds_collides(
    piece: CellMatrix,
    board: CellMatrix,
    offset: CellVec,
    x: int,
    y: int,
)
    requires
        0 <= x < piece.width,
        0 <= y < piece.height,
        piece.cell(x, y) == Cell::Occupied,
        !(0 <= x + offset.x < board.width as int) || !(0 <= y + offset.y < board.height as int),
    ensures
        collides_spec(piece, board, offset),
{
    assert(board_blocked(board, x + offset.x, y + offset.y));
}

/// A piece placed fully within the bounds of an all-unoccupied board never
/// collides.
pub proof fn lemma_empty_board_no_collision(piece: CellMatrix, board: CellMatrix, offset: CellVec)
    requires
        all_unoccupied(board),
        fits_on_board(piece, board, offset),
    ensures
        !collides_spec(piece, board, offset),
{
    assert forall|x: int, y: int|
        0 <= x < piece.width && 0 <= y < piece.height && #[trigger] piece.cell(x, y)
            == Cell::Occupied implies !board_blocked(board, x + offset.x, y + offset.y) by {
        assert(board.cell(x + offset.x, y + offset.y) == Cell::Unoccupied);
    }
}

/// A piece grid with no occupied cell collides with nothing, wherever it is
/// placed.
pub proof fn lemma_no_occupied_cell_no_collision(
    piece: CellMatrix,
    board: CellMatrix,
    offset: CellVec,
)
    requires
        forall|x: int, y: int|
            0 <= x < piece.width && 0 <= y < piece.height ==> #[trigger] piece.cell(x, y)
                != Cell::Occupied,
    ensures
        !collides_spec(piece, board, offset),
{
}

/// Rotation round-trip: a quarter turn clockwise undone by a quarter turn
/// counter-clockwise restores the original dimensions and every cell, and
/// hence the original view.
pub proof fn lemma_rotate_right_then_left(g: CellMatrix, a: CellMatrix, b: CellMatrix)
    requires
        g.wf(),
        is_rotation_right(g, a),
        is_rotation_left(a, b),
    ensures
        b.width == g.width,
        b.height == g.height,
        forall|x: int, y: int|
            0 <= x < g.width && 0 <= y < g.height ==> #[trigger] b.cell(x, y) == g.cell(x, y),
        b@ == g@,
{
    assert forall|x: int, y: int|
        0 <= x < g.width && 0 <= y < g.height implies #[trigger] b.cell(x, y) == g.cell(x, y) by {
        assert(b.cell(x, y) == a.cell(a.width - 1 - y, x));
        assert(a.cell(g.height - 1 - y, x) == g.cell(x, g.height - 1 - (g.height - 1 - y)));
    }
    assert forall|y: int| 0 <= y < g@.len() implies b@[y] =~= g@[y] by {
        assert forall|x: int| 0 <= x < g@[y].len() implies b@[y][x] == g@[y][x] by {
            assert(b.cell(x, y) == g.cell(x, y));
        }
    }
    assert(b@ =~~= g@);
}

/// Rotation round-trip in the other order: a quarter turn counter-clockwise
/// undone by a quarter turn clockwise restores the original dimensions and
/// every cell, and hence the original view.
pub proof fn lemma_rotate_left_then_right(g: CellMatrix, a: CellMatrix, b: CellMatrix)
    requires
        g.wf(),
        is_rotation_left(g, a),
        is_rotation_right(a, b),
    ensures
        b.width == g.width,
        b.height == g.height,
        forall|x: int, y: int|
            0 <= x < g.width && 0 <= y < g.height ==> #[trigger] b.cell(x, y) == g.cell(x, y),
        b@ == g@,
{
    assert forall|x: int, y: int|
        0 <= x < g.width && 0 <= y < g.height implies #[trigger] b.cell(x, y) == g.cell(x, y) by {
        assert(b.cell(x, y) == a.cell(y, a.height - 1 - x));
        assert(a.cell(y, g.width - 1 - x) == g.cell(g.width - 1 - (g.width - 1 - x), y));
    }
    assert forall|y: int| 0 <= y < g@.len() implies b@[y] =~= g@[y] by {
        assert forall|x: int| 0 <= x < g@[y].len() implies b@[y][x] == g@[y][x] by {
            assert(b.cell(x, y) == g.cell(x, y));
        }
    }
    assert(b@ =~~= g@);
}

} // verus!
