//! The simulation controller: owns the board and the active piece, applies
//! gravity-driven descent on each tick, and decodes, debounces and applies
//! directional and rotation commands.

use vstd::prelude::*;
use crate::cellmatrix::{
    all_unoccupied, collides_spec, is_rotation_left, is_rotation_right, CellMatrix, CellVec,
};
use crate::tetromino::{
    candidate_fits, is_spawn_grid, move_candidate, rotation_left_blocked, rotation_right_blocked,
    Shape, Tetromino,
};

verus! {

/// Whether the game should keep running. The core itself always keeps
/// playing; the surrounding program reports `Exit` when its window closes.
#[derive(Copy, Clone, Debug, PartialEq, Eq, Structural)]
pub enum GameState {
    Exit,
    Play,
}

/// The fixed set of keys the controller reacts to. `Other` stands for any
/// key outside that set; pressing it does nothing.
#[derive(Copy, Clone, Debug, PartialEq, Eq, Structural)]
pub enum Key {
    Left,
    Right,
    Up,
    Down,
    Z,
    X,
    Other,
}

/// A press or release edge delivered by the input source.
#[derive(Copy, Clone, Debug, PartialEq, Eq, Structural)]
pub enum InputEvent {
    KeyPress(Key),
    KeyRelease(Key),
}

/// The simulation state. The gravity rate is the exact rational
/// `gravity_num / gravity_den` in cells of descent per frame (1/60 at the
/// start); `old_gravity` is the single saved numerator slot for the
/// soft-drop override. The slot is not a stack: a second override while one
/// is active discards the first saved value — a known one-level limitation.
pub struct Tetris {
    /// Window width in pixels; held for render-side queries only.
    pub width: u32,
    /// Window height in pixels; held for render-side queries only.
    pub height: u32,
    /// The single debounce latch shared by all action keys.
    pub key_held: Option<Key>,
    /// The board: locked terrain (all unoccupied until locking exists).
    pub board: CellMatrix,
    /// Saved gravity numerator, restored when soft drop ends.
    pub old_gravity: u32,
    /// Gravity rate numerator, in cells per `gravity_den` frames.
    pub gravity_num: u32,
    /// Gravity rate denominator; at least 1.
    pub gravity_den: u32,
    /// Frames accumulated since gravity last fired.
    pub gravity_frame: u32,
    /// The active piece, if one has been spawned.
    pub current_tetromino: Option<Tetromino>,
}

/// Keys that drive an action; any other key is ignored on press.
pub open spec fn is_action_key(k: Key) -> bool {
    match k {
        Key::Other => false,
        _ => true,
    }
}

/// Where a new piece spawns on the board.
pub open spec fn spawn_position() -> CellVec {
    CellVec { x: 3, y: 0 }
}

/// The gravity frame count after one tick: one more than before, held at
/// `u32::MAX` once exhausted (reachable only with a gravity rate of zero,
/// when gravity never fires).
pub open spec fn ticked_frame(t: Tetris) -> int {
    if t.gravity_frame < u32::MAX {
        t.gravity_frame + 1
    } else {
        t.gravity_frame as int
    }
}

/// Gravity is due on a tick when the ticked frame count reaches the period
/// `gravity_den / gravity_num` (for the starting rate of 1/60: every 60th
/// tick). A rate of zero never fires.
pub open spec fn gravity_fires(t: Tetris) -> bool {
    t.gravity_num >= 1 && ticked_frame(t) >= t.gravity_den as int / t.gravity_num as int
}

/// Cells of descent applied when gravity fires: the rate `num / den`
/// rounded up, capped at `i8::MAX` so the delta stays representable.
pub open spec fn drop_cells(num: int, den: int) -> int {
    let c = if num % den == 0 {
        num / den
    } else {
        num / den + 1
    };
    if c > i8::MAX as int {
        i8::MAX as int
    } else {
        c
    }
}

/// `a + b` held at `u32::MAX`.
pub open spec fn saturating_add(a: u32, b: u32) -> int {
    if a + b <= u32::MAX {
        a + b
    } else {
        u32::MAX as int
    }
}

/// How the active piece responds to a move request by `(dx, dy)`: an absent
/// piece stays absent; a piece moves exactly when the moved position is
/// representable and the collision oracle clears it, and otherwise is left
/// untouched.
pub open spec fn piece_moved(
    p: Option<Tetromino>,
    board: CellMatrix,
    dx: int,
    dy: int,
    q: Option<Tetromino>,
) -> bool {
    match p {
        None => q == p,
        Some(t) => {
            if candidate_fits(t.cell_position, dx, dy) && !collides_spec(
                t.matrix,
                board,
                move_candidate(t.cell_position, dx, dy),
            ) {
                q matches Some(u) && u.shape == t.shape && u.matrix == t.matrix
                    && u.cell_position == move_candidate(t.cell_position, dx, dy)
            } else {
                q == p
            }
        },
    }
}

/// How the active piece responds to a clockwise rotation request: an absent
/// piece stays absent; the rotation is committed exactly when the rotated
/// grid is collision-free at the current position.
pub open spec fn piece_rotated_right(
    p: Option<Tetromino>,
    board: CellMatrix,
    q: Option<Tetromino>,
) -> bool {
    match p {
        None => q == p,
        Some(t) => {
            if !rotation_right_blocked(t, board) {
                q matches Some(u) && u.shape == t.shape && u.cell_position == t.cell_position
                    && is_rotation_right(t.matrix, u.matrix)
            } else {
                q == p
            }
        },
    }
}

/// How the active piece responds to a counter-clockwise rotation request.
pub open spec fn piece_rotated_left(
    p: Option<Tetromino>,
    board: CellMatrix,
    q: Option<Tetromino>,
) -> bool {
    match p {
        None => q == p,
        Some(t) => {
            if !rotation_left_blocked(t, board) {
                q matches Some(u) && u.shape == t.shape && u.cell_position == t.cell_position
                    && is_rotation_left(t.matrix, u.matrix)
            } else {
                q == p
            }
        },
    }
}

/// The gravity rate and its saved slot are the same in both states.
pub open spec fn rates_unchanged(pre: Tetris, post: Tetris) -> bool {
    &&& post.gravity_num == pre.gravity_num
    &&& post.gravity_den == pre.gravity_den
    &&& post.old_gravity == pre.old_gravity
}

/// One gravity tick. The frame count ticks up; when gravity is due the
/// piece is asked to move down by `drop_cells` and the count rewinds to
/// zero whether or not the move was accepted (a rejected gravity move is
/// silently absorbed — the piece simply stops).
pub open spec fn advance_rel(pre: Tetris, post: Tetris) -> bool {
    &&& post.width == pre.width
    &&& post.height == pre.height
    &&& post.key_held == pre.key_held
    &&& post.board == pre.board
    &&& rates_unchanged(pre, post)
    &&& if gravity_fires(pre) {
        &&& post.gravity_frame == 0
        &&& piece_moved(
            pre.current_tetromino,
            pre.board,
            0,
            drop_cells(pre.gravity_num as int, pre.gravity_den as int),
            post.current_tetromino,
        )
    } else {
        &&& post.gravity_frame == ticked_frame(pre)
        &&& post.current_tetromino == pre.current_tetromino
    }
}

/// One input event. A press of an action key already latched is suppressed
/// entirely; a fresh press latches the key and performs its action. A
/// release clears a matching latch, and releasing the soft-drop key also
/// restores the saved gravity rate.
pub open spec fn input_rel(pre: Tetris, event: InputEvent, post: Tetris) -> bool {
    match event {
        InputEvent::KeyPress(k) => {
            if !is_action_key(k) || pre.key_held == Some(k) {
                post == pre
            } else {
                &&& post.width == pre.width
                &&& post.height == pre.height
                &&& post.board == pre.board
                &&& post.gravity_frame == pre.gravity_frame
                &&& post.key_held == Some(k)
                &&& match k {
                    Key::Left => rates_unchanged(pre, post) && piece_moved(
                        pre.current_tetromino,
                        pre.board,
                        -1,
                        0,
                        post.current_tetromino,
                    ),
                    Key::Right => rates_unchanged(pre, post) && piece_moved(
                        pre.current_tetromino,
                        pre.board,
                        1,
                        0,
                        post.current_tetromino,
                    ),
                    Key::Up | Key::Z => rates_unchanged(pre, post) && piece_rotated_right(
                        pre.current_tetromino,
                        pre.board,
                        post.current_tetromino,
                    ),
                    Key::X => rates_unchanged(pre, post) && piece_rotated_left(
                        pre.current_tetromino,
                        pre.board,
                        post.current_tetromino,
                    ),
                    Key::Down => {
                        &&& post.current_tetromino == pre.current_tetromino
                        &&& post.old_gravity == pre.gravity_num
                        &&& post.gravity_num == saturating_add(pre.gravity_num, pre.gravity_den)
                        &&& post.gravity_den == pre.gravity_den
                    },
                    Key::Other => false,
                }
            }
        },
        InputEvent::KeyRelease(k) => {
            &&& post.width == pre.width
            &&& post.height == pre.height
            &&& post.board == pre.board
            &&& post.gravity_frame == pre.gravity_frame
            &&& post.current_tetromino == pre.current_tetromino
            &&& post.key_held == (if pre.key_held == Some(k) {
                None::<Key>
            } else {
                pre.key_held
            })
            &&& post.gravity_den == pre.gravity_den
            &&& post.old_gravity == pre.old_gravity
            &&& post.gravity_num == (if k == Key::Down {
                pre.old_gravity
            } else {
                pre.gravity_num
            })
        },
    }
}

/// One full tick: the event is handled first, then gravity advances.
pub open spec fn update_rel(pre: Tetris, event: InputEvent, post: Tetris) -> bool {
    exists|mid: Tetris| #[trigger] input_rel(pre, event, mid) && advance_rel(mid, post)
}

impl Tetris {
    /// The board and the active piece, if any, are well-formed, and the
    /// gravity denominator is positive.
    pub open spec fn wf(self) -> bool {
        &&& self.board.wf()
        &&& self.gravity_den >= 1
        &&& self.current_tetromino matches Some(t) ==> t.wf()
    }

    /// A fresh game: a 10 x 22 all-unoccupied board, no piece, no latched
    /// key, gravity at 1/60 cells per frame. `width` and `height` are the
    /// window dimensions, held for render-side queries.
    pub fn new(width: u32, height: u32) -> (t: Tetris)
        ensures
            t.wf(),
            t.width == width,
            t.height == height,
            t.key_held is None,
            t.board.width == 10,
            t.board.height == 22,
            all_unoccupied(t.board),
            t.old_gravity == 0,
            t.gravity_num == 1,
            t.gravity_den == 60,
            t.gravity_frame == 0,
            t.current_tetromino is None,
    {
        Tetris {
            width,
            height,
            key_held: None,
            board: CellMatrix::new(10, 22),
            old_gravity: 0,
            gravity_num: 1,
            gravity_den: 60,
            gravity_frame: 0,
            current_tetromino: None,
        }
    }

    /// Spawns a fresh piece as the active one, replacing any current piece.
    /// Every spawn uses the one wired shape-table entry.
    pub fn new_piece(&mut self)
        requires
            old(self).wf(),
        ensures
            final(self).wf(),
            final(self).current_tetromino matches Some(t) && t.shape == Shape::LBlock
                && t.cell_position == spawn_position() && is_spawn_grid(t.matrix),
            final(self).width == old(self).width,
            final(self).height == old(self).height,
            final(self).key_held == old(self).key_held,
            final(self).board == old(self).board,
            rates_unchanged(*old(self), *final(self)),
            final(self).gravity_frame == old(self).gravity_frame,
    {
        let t = Tetromino::new(Shape::LBlock, CellVec::new(3, 0));
        self.current_tetromino = Some(t);
    }

    /// Begins a game by spawning the first piece. Display setup is the
    /// surrounding program's concern.
    pub fn start(&mut self)
        requires
            old(self).wf(),
        ensures
            final(self).wf(),
            final(self).current_tetromino matches Some(t) && t.shape == Shape::LBlock
                && t.cell_position == spawn_position() && is_spawn_grid(t.matrix),
            final(self).width == old(self).width,
            final(self).height == old(self).height,
            final(self).key_held == old(self).key_held,
            final(self).board == old(self).board,
            rates_unchanged(*old(self), *final(self)),
            final(self).gravity_frame == old(self).gravity_frame,
    {
        self.new_piece();
    }

    /// Asks the active piece to move by `direction`, gated by the collision
    /// oracle; with no piece this does nothing.
    pub fn move_piece(&mut self, direction: CellVec)
        requires
            old(self).wf(),
        ensures
            final(self).wf(),
            piece_moved(
                old(self).current_tetromino,
                old(self).board,
                direction.x as int,
                direction.y as int,
                final(self).current_tetromino,
            ),
            final(self).width == old(self).width,
            final(self).height == old(self).height,
            final(self).key_held == old(self).key_held,
            final(self).board == old(self).board,
            rates_unchanged(*old(self), *final(self)),
            final(self).gravity_frame == old(self).gravity_frame,
    {
        let piece_opt = self.current_tetromino.take();
        match piece_opt {
            None => {},
            Some(mut piece) => {
                let cx: i16 = piece.cell_position.x as i16 + direction.x as i16;
                let cy: i16 = piece.cell_position.y as i16 + direction.y as i16;
                if -128 <= cx && cx <= 127 && -128 <= cy && cy <= 127 {
                    let _moved = piece.try_move(&self.board, direction);
                }
                self.current_tetromino = Some(piece);
            },
        }
    }

    /// Asks the active piece for a validated clockwise rotation; with no
    /// piece this does nothing.
    pub fn rotate_right(&mut self)
        requires
            old(self).wf(),
        ensures
            final(self).wf(),
            piece_rotated_right(
                old(self).current_tetromino,
                old(self).board,
                final(self).current_tetromino,
            ),
            final(self).width == old(self).width,
            final(self).height == old(self).height,
            final(self).key_held == old(self).key_held,
            final(self).board == old(self).board,
            rates_unchanged(*old(self), *final(self)),
            final(self).gravity_frame == old(self).gravity_frame,
    {
        let piece_opt = self.current_tetromino.take();
        match piece_opt {
            None => {},
            Some(mut piece) => {
                let _rotated = piece.try_rotate_right(&self.board);
                self.current_tetromino = Some(piece);
            },
        }
    }

    /// Asks the active piece for a validated counter-clockwise rotation;
    /// with no piece this does nothing.
    pub fn rotate_left(&mut self)
        requires
            old(self).wf(),
        ensures
            final(self).wf(),
            piece_rotated_left(
                old(self).current_tetromino,
                old(self).board,
                final(self).current_tetromino,
            ),
            final(self).width == old(self).width,
            final(self).height == old(self).height,
            final(self).key_held == old(self).key_held,
            final(self).board == old(self).board,
            rates_unchanged(*old(self), *final(self)),
            final(self).gravity_frame == old(self).gravity_frame,
    {
        let piece_opt = self.current_tetromino.take();
        match piece_opt {
            None => {},
            Some(mut piece) => {
                let _rotated = piece.try_rotate_left(&self.board);
                self.current_tetromino = Some(piece);
            },
        }
    }

    /// Cells of descent for the current gravity rate: the rate rounded up,
    /// capped so the delta stays an `i8`.
    fn drop_velocity(&self) -> (v: i8)
        requires
            self.gravity_den >= 1,
        ensures
            v as int == drop_cells(self.gravity_num as int, self.gravity_den as int),
            v >= 0,
    {
        let num = self.gravity_num as u64;
        let den = self.gravity_den as u64;
        let c = if num % den == 0 {
            num / den
        } else {
            num / den + 1
        };
        if c > 127 {
            127
        } else {
            c as i8
        }
    }

    /// One gravity step: the piece is asked to descend by the rounded-up
    /// rate. The frame count is the caller's concern.
    fn gravity(&mut self)
        requires
            old(self).wf(),
        ensures
            final(self).wf(),
            piece_moved(
                old(self).current_tetromino,
                old(self).board,
                0,
                drop_cells(old(self).gravity_num as int, old(self).gravity_den as int),
                final(self).current_tetromino,
            ),
            final(self).width == old(self).width,
            final(self).height == old(self).height,
            final(self).key_held == old(self).key_held,
            final(self).board == old(self).board,
            rates_unchanged(*old(self), *final(self)),
            final(self).gravity_frame == old(self).gravity_frame,
    {
        let velocity = self.drop_velocity();
        self.move_piece(CellVec::new(0, velocity));
    }

    /// Latches `key` if it is not already held and reports whether it was
    /// fresh; a press of an already-latched key is suppressed.
    fn latch_press(&mut self, key: Key) -> (fresh: bool)
        ensures
            fresh == (old(self).key_held != Some(key)),
            !fresh ==> *final(self) == *old(self),
            fresh ==> final(self).key_held == Some(key),
            final(self).width == old(self).width,
            final(self).height == old(self).height,
            final(self).board == old(self).board,
            rates_unchanged(*old(self), *final(self)),
            final(self).gravity_frame == old(self).gravity_frame,
            final(self).current_tetromino == old(self).current_tetromino,
    {
        let held = match self.key_held {
            Some(k) => k == key,
            None => false,
        };
        if !held {
            self.key_held = Some(key);
            true
        } else {
            false
        }
    }

    /// Handles one input event, with the debounce and soft-drop rules of
    /// `input_rel`. The core never ends the game itself.
    pub fn handle_input(&mut self, event: InputEvent) -> (state: GameState)
        requires
            old(self).wf(),
        ensures
            final(self).wf(),
            input_rel(*old(self), event, *final(self)),
            state == GameState::Play,
    {
        match event {
            InputEvent::KeyPress(key) => {
                match key {
                    Key::Left => {
                        if self.latch_press(Key::Left) {
                            self.move_piece(CellVec::new(-1, 0));
                        }
                    },
                    Key::Right => {
                        if self.latch_press(Key::Right) {
                            self.move_piece(CellVec::new(1, 0));
                        }
                    },
                    Key::Up => {
                        if self.latch_press(Key::Up) {
                            self.rotate_right();
                        }
                    },
                    Key::Z => {
                        if self.latch_press(Key::Z) {
                            self.rotate_right();
                        }
                    },
                    Key::X => {
                        if self.latch_press(Key::X) {
                            self.rotate_left();
                        }
                    },
                    Key::Down => {
                        if self.latch_press(Key::Down) {
                            self.old_gravity = self.gravity_num;
                            self.gravity_num = if self.gravity_num <= u32::MAX - self.gravity_den {
                                self.gravity_num + self.gravity_den
                            } else {
                                u32::MAX
                            };
                        }
                    },
                    Key::Other => {},
                }
            },
            InputEvent::KeyRelease(key) => {
                let held = match self.key_held {
                    Some(k) => k == key,
                    None => false,
                };
                if held {
                    self.key_held = None;
                }
                if key == Key::Down {
                    self.gravity_num = self.old_gravity;
                }
            },
        }
        GameState::Play
    }

    /// One gravity tick, as `advance_rel` states: the frame count ticks up,
    /// and when gravity is due the piece is asked to descend and the count
    /// rewinds whether or not the move was accepted.
    pub fn advance(&mut self)
        requires
            old(self).wf(),
        ensures
            final(self).wf(),
            advance_rel(*old(self), *final(self)),
    {
        if self.gravity_frame < u32::MAX {
            self.gravity_frame = self.gravity_frame + 1;
        }
        if self.gravity_num >= 1 && self.gravity_frame >= self.gravity_den / self.gravity_num {
            self.gravity();
            self.gravity_frame = 0;
        }
    }

    /// One full tick as driven by the frame pump: handle the event, then
    /// advance gravity.
    pub fn update(&mut self, event: InputEvent) -> (state: GameState)
        requires
            old(self).wf(),
        ensures
            final(self).wf(),
            update_rel(*old(self), event, *final(self)),
            state == GameState::Play,
    {
        let state = self.handle_input(event);
        let ghost mid = *self;
        self.advance();
        proof {
            assert(input_rel(*old(self), event, mid) && advance_rel(mid, *self));
        }
        state
    }
}

/// Debounce law: a second press of a key without an intervening release
/// does nothing, and a press after the release acts again. Stated for the
/// left-move key: the first press performs one move action, the repeated
/// press leaves the state untouched, and the press following the release
/// performs a second move action.
pub proof fn lemma_debounce(t0: Tetris, t1: Tetris, t2: Tetris, t3: Tetris, t4: Tetris)
    requires
        t0.key_held != Some(Key::Left),
        input_rel(t0, InputEvent::KeyPress(Key::Left), t1),
        input_rel(t1, InputEvent::KeyPress(Key::Left), t2),
        input_rel(t2, InputEvent::KeyRelease(Key::Left), t3),
        input_rel(t3, InputEvent::KeyPress(Key::Left), t4),
    ensures
        piece_moved(t0.current_tetromino, t0.board, -1, 0, t1.current_tetromino),
        t2 == t1,
        piece_moved(t3.current_tetromino, t3.board, -1, 0, t4.current_tetromino),
{
}

/// The per-step facts that hold along a gravity chain at the starting rate
/// before gravity first fires: the frame count equals the number of ticks
/// taken, and the piece, board and rate are untouched.
spec fn cadence_inv(states: Seq<Tetris>, i: int) -> bool {
    &&& states[i].gravity_frame == i
    &&& states[i].current_tetromino == states[0].current_tetromino
    &&& states[i].board == states[0].board
    &&& states[i].gravity_num == 1
    &&& states[i].gravity_den == 60
}

proof fn lemma_cadence_prefix(states: Seq<Tetris>, n: int)
    requires
        0 <= n <= 59,
        states.len() == 61,
        states[0].gravity_num == 1,
        states[0].gravity_den == 60,
        states[0].gravity_frame == 0,
        forall|i: int| 0 <= i < 60 ==> #[trigger] advance_rel(states[i], states[i + 1]),
    ensures
        forall|i: int| 0 <= i <= n ==> #[trigger] cadence_inv(states, i),
    decreases n,
{
    if n > 0 {
        lemma_cadence_prefix(states, n - 1);
        assert(cadence_inv(states, n - 1));
        let j = n - 1;
        assert(advance_rel(states[j], states[j + 1]));
        assert(!gravity_fires(states[j]));
        assert(cadence_inv(states, n));
    } else {
        assert(cadence_inv(states, 0));
    }
}

/// Gravity cadence law at the starting rate of 1/60 cells per frame: along
/// a chain of 60 `advance` ticks from a rewound frame count, the piece is
/// untouched through the first 59 ticks, and the 60th tick asks it to
/// descend by exactly one cell — so with that descent collision-free, 59
/// ticks move the piece by nothing and 60 ticks move it down one cell.
pub proof fn lemma_gravity_cadence(states: Seq<Tetris>)
    requires
        states.len() == 61,
        states[0].gravity_num == 1,
        states[0].gravity_den == 60,
        states[0].gravity_frame == 0,
        forall|i: int| 0 <= i < 60 ==> #[trigger] advance_rel(states[i], states[i + 1]),
    ensures
        forall|i: int|
            0 <= i <= 59 ==> #[trigger] states[i].current_tetromino
                == states[0].current_tetromino,
        piece_moved(
            states[0].current_tetromino,
            states[0].board,
            0,
            1,
            states[60].current_tetromino,
        ),
{
    lemma_cadence_prefix(states, 59);
    assert forall|i: int| 0 <= i <= 59 implies #[trigger] states[i].current_tetromino
        == states[0].current_tetromino by {
        assert(cadence_inv(states, i));
    }
    assert(cadence_inv(states, 59));
    let j = 59int;
    assert(advance_rel(states[j], states[j + 1]));
    assert(gravity_fires(states[j]));
    assert(drop_cells(1, 60) == 1);
}

} // verus!
