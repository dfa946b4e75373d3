//! The game session: playfield state, piece movement and collision, locking
//! and line clearing, scoring and level progression, and the pause /
//! game-over control flow, driven as an explicit state machine.
use vstd::prelude::*;
use vstd::std_specs::vec::spec_vec_len;

use crate::cell::{empty_cell, Cell};
use crate::grid::{
    filled_row_count, garbage_row, grid_occupied_count, grid_view, grid_wf, row_filled,
    spec_empty_row, spec_garbage_row, unfilled_rows,
};
use crate::shapes::{spec_tetromino_width, state_wf, tetromino_width};
use crate::tetromino::{Position, Tetromino};
use crate::{DEFAULT_INTERVAL, LINES_PER_LEVEL, MAX_LEVEL, PLAY_HEIGHT, PLAY_WIDTH};

verus! {

/// Control state of a session, made explicit so that one re-entrant step
/// function can drive what the interactive loop used to do with nested
/// blocking prompts.
#[derive(Clone, Copy, Debug, PartialEq, Eq, Structural)]
pub enum Phase {
    /// Normal play: gravity and piece movement are active.
    Playing,
    /// The pause key was pressed; a continue/quit menu is shown.
    Paused,
    /// A quit was requested and awaits confirmation.
    QuitConfirm,
    /// A peer notification interrupted play; restart/continue/quit is shown.
    Notified,
    /// The freshly spawned piece had no legal move; restart/quit is shown.
    GameOver,
    /// The session is finished; no further transitions happen.
    Terminated,
}

/// Win/loss tally kept in two-player mode.
#[derive(Clone, Copy, Debug, PartialEq, Eq, Structural)]
pub struct MultiplayerScore {
    /// Rounds this player has won.
    pub my_score: u8,
    /// Rounds the competitor has won.
    pub competitor_score: u8,
}

/// A discrete input consumed during play; at most one per tick.
#[derive(Clone, Copy, Debug, PartialEq, Eq, Structural)]
pub enum GameInput {
    /// Move the falling piece one column left.
    MoveLeft,
    /// Move the falling piece one column right.
    MoveRight,
    /// Rotate the falling piece to its next state, in place.
    Rotate,
    /// One accelerated manual descent step.
    SoftDrop,
    /// Drop to the lowest legal position and lock immediately.
    HardDrop,
    /// Enter the pause menu.
    TogglePause,
    /// Ask to quit; must be confirmed.
    Quit,
}

/// A choice made in the notification or game-over menu.
#[derive(Clone, Copy, Debug, PartialEq, Eq, Structural)]
pub enum MenuChoice {
    /// Resume play.
    Continue,
    /// Start a fresh round.
    Restart,
    /// End the session.
    Quit,
}

/// One block of the piece state grid, placed at playfield coordinates
/// (`row + r`, `col + c`), does not collide: it stays inside the side
/// walls, above the floor, and off occupied cells. A block above the top
/// row is permitted and meets no cell, so only the horizontal bounds
/// constrain it.
pub open spec fn block_ok(g: Vec<Vec<Cell>>, row: int, col: int, r: int, c: int) -> bool {
    &&& row + r < PLAY_HEIGHT
    &&& 0 <= col + c < PLAY_WIDTH
    &&& (row + r >= 0 ==> !g@[row + r]@[col + c].occupied)
}

/// The piece `t`, in state `t.current_state`, may stand with its state
/// grid's top-left corner at (`row`, `col`): every block lies inside the
/// field and over an unoccupied grid cell. Blank cells of the state grid
/// are not constrained, so blank borders may hang outside the field.
pub open spec fn can_place(g: Vec<Vec<Cell>>, t: Tetromino, row: int, col: int) -> bool {
    forall|r: int, c: int| #[trigger] t.occ(r, c) ==> block_ok(g, row, col, r, c)
}

/// The same piece in rotation state `idx`.
pub open spec fn with_state(t: Tetromino, idx: usize) -> Tetromino {
    Tetromino { current_state: idx, ..t }
}

/// The rotation state that follows the current one, cycling.
pub open spec fn spec_next_state_idx(t: Tetromino) -> int {
    (t.current_state + 1) % (t.states@.len() as int)
}

/// Below the floor or beyond a side wall no placement is legal: a
/// well-formed state grid is at most four cells wide, so a corner past
/// that margin puts every block out of bounds. (No such bound holds above
/// the field: blocks above the top row do not collide.)
pub proof fn lemma_can_place_far(g: Vec<Vec<Cell>>, t: Tetromino, row: int, col: int)
    requires
        t.wf(),
        row >= PLAY_HEIGHT || col <= -4 || col >= PLAY_WIDTH,
    ensures
        !can_place(g, t, row, col),
{
    assert(state_wf(t.state()));
    let (wr, wc) = choose|wr: int, wc: int|
        0 <= wr < t.state()@.len() && 0 <= wc < t.state()@.len()
            && (#[trigger] t.state()@[wr]@[wc]).occupied;
    assert(t.occ(wr, wc));
    assert(!block_ok(g, row, col, wr, wc));
}

/// The piece sits with its state grid's corner at or below the top row,
/// and every block lies inside the field. The blocks may overlap occupied
/// grid cells (a spawn can land on them), but they never leave the field,
/// so locking stays in bounds.
pub open spec fn piece_in_bounds(t: Tetromino) -> bool {
    &&& 0 <= t.position.row as int
    &&& forall|r: int, c: int|
        #[trigger] t.occ(r, c) ==> 0 <= t.position.row as int + r < PLAY_HEIGHT && 0
            <= t.position.col as int + c < PLAY_WIDTH
}

/// A piece standing on a legal placement, with its corner at or below the
/// top row, lies inside the field.
pub proof fn lemma_can_place_in_bounds(g: Vec<Vec<Cell>>, t: Tetromino)
    requires
        can_place(g, t, t.position.row as int, t.position.col as int),
        0 <= t.position.row as int,
    ensures
        piece_in_bounds(t),
{
    assert forall|r: int, c: int| #[trigger] t.occ(r, c) implies 0 <= t.position.row as int + r
        < PLAY_HEIGHT && 0 <= t.position.col as int + c < PLAY_WIDTH by {
        assert(block_ok(g, t.position.row as int, t.position.col as int, r, c));
    }
}

/// A well-formed piece whose corner sits in the spawn window (rows 0 to
/// 16, columns 0 to 6) lies inside the field, whatever its shape.
pub proof fn lemma_spawn_in_bounds(t: Tetromino)
    requires
        t.wf(),
        0 <= t.position.row as int <= 16,
        0 <= t.position.col as int <= 6,
    ensures
        piece_in_bounds(t),
{
    assert(state_wf(t.state()));
    assert forall|r: int, c: int| #[trigger] t.occ(r, c) implies 0 <= t.position.row as int + r
        < PLAY_HEIGHT && 0 <= t.position.col as int + c < PLAY_WIDTH by {
        assert(0 <= r < 4 && 0 <= c < 4);
    }
}

/// The whole session state that play mutates. Presentation, persistence,
/// randomness for new pieces, and the peer connection live outside; the
/// loop around the session injects pieces and carries messages.
pub struct Game {
    /// The playfield of locked cells.
    pub play_grid: Vec<Vec<Cell>>,
    /// The falling piece.
    pub current_tetromino: Tetromino,
    /// The piece shown in the preview area, used next.
    pub next_tetromino: Tetromino,
    /// Total rows cleared this round.
    pub lines: usize,
    /// The level the round started at.
    pub start_at_level: usize,
    /// Current level.
    pub level: usize,
    /// Current score.
    pub score: usize,
    /// Gravity interval in milliseconds, derived from the level.
    pub drop_interval: u64,
    /// Control state.
    pub phase: Phase,
    /// Whether a peer is connected.
    pub multiplayer: bool,
    /// Win/loss tally against the peer.
    pub multiplayer_score: MultiplayerScore,
    /// Handicap rows each round starts with.
    pub start_with_number_of_filled_lines: usize,
}

impl Game {
    /// Session well-formedness: a rectangular grid, well-formed pieces, and
    /// bounded level fields.
    pub open spec fn wf(self) -> bool {
        &&& grid_wf(self.play_grid)
        &&& self.current_tetromino.wf()
        &&& piece_in_bounds(self.current_tetromino)
        &&& self.next_tetromino.wf()
        &&& self.level <= MAX_LEVEL + 1
        &&& self.start_at_level <= MAX_LEVEL
        &&& self.start_with_number_of_filled_lines <= PLAY_HEIGHT
    }

    /// Collision test for the piece's current rotation state.
    pub fn can_move(&self, tetromino: &Tetromino, new_row: isize, new_col: isize) -> (ok: bool)
        requires
            self.wf(),
            tetromino.wf(),
        ensures
            ok == can_place(self.play_grid, *tetromino, new_row as int, new_col as int),
    {
        let ok = self.can_move_state(tetromino, tetromino.current_state, new_row, new_col);
        proof {
            assert(with_state(*tetromino, tetromino.current_state) == *tetromino);
        }
        ok
    }

    /// Collision test for rotation state `state_idx` of the piece, used by
    /// rotation to probe the next state at the same position.
    #[verifier::loop_isolation(false)]
    pub fn can_move_state(
        &self,
        tetromino: &Tetromino,
        state_idx: usize,
        new_row: isize,
        new_col: isize,
    ) -> (ok: bool)
        requires
            self.wf(),
            tetromino.wf(),
            state_idx < tetromino.states@.len(),
        ensures
            ok == can_place(
                self.play_grid,
                with_state(*tetromino, state_idx),
                new_row as int,
                new_col as int,
            ),
    {
        let ghost t2 = with_state(*tetromino, state_idx);
        proof {
            assert(t2.wf());
            assert(t2.state() == tetromino.states@[state_idx as int]);
        }
        if new_row >= PLAY_HEIGHT as isize || new_col <= -4 || new_col >= PLAY_WIDTH as isize {
            proof {
                lemma_can_place_far(self.play_grid, t2, new_row as int, new_col as int);
            }
            return false;
        }
        let state = &tetromino.states[state_idx];
        let n = state.len();
        proof {
            assert(n == t2.size());
        }
        let mut r: usize = 0;
        while r < n
            invariant
                r <= n,
                n == t2.size(),
                *state == t2.state(),
                self.wf(),
                t2.wf(),
                new_row < PLAY_HEIGHT,
                -3 <= new_col < PLAY_WIDTH,
                n <= 4,
                forall|pr: int, pc: int|
                    #[trigger] t2.occ(pr, pc) && pr < r ==> block_ok(
                        self.play_grid,
                        new_row as int,
                        new_col as int,
                        pr,
                        pc,
                    ),
            decreases n - r,
        {
            let mut c: usize = 0;
            while c < n
                invariant
                    c <= n,
                    r < n,
                    n == t2.size(),
                    *state == t2.state(),
                    self.wf(),
                    t2.wf(),
                    new_row < PLAY_HEIGHT,
                    -3 <= new_col < PLAY_WIDTH,
                    n <= 4,
                    forall|pr: int, pc: int|
                        #[trigger] t2.occ(pr, pc) && pr < r ==> block_ok(
                            self.play_grid,
                            new_row as int,
                            new_col as int,
                            pr,
                            pc,
                        ),
                    forall|pc: int|
                        #[trigger] t2.occ(r as int, pc) && pc < c ==> block_ok(
                            self.play_grid,
                            new_row as int,
                            new_col as int,
                            r as int,
                            pc,
                        ),
                decreases n - c,
            {
                if state[r][c].occupied {
                    proof {
                        assert(t2.occ(r as int, c as int));
                    }
                    let grid_y = new_row + r as isize;
                    let grid_x = new_col + c as isize;
                    if grid_y >= PLAY_HEIGHT as isize || grid_x < 0
                        || grid_x >= PLAY_WIDTH as isize {
                        proof {
                            assert(!block_ok(
                                self.play_grid,
                                new_row as int,
                                new_col as int,
                                r as int,
                                c as int,
                            ));
                            assert(with_state(*tetromino, state_idx).occ(r as int, c as int));
                            assert(!can_place(
                                self.play_grid,
                                with_state(*tetromino, state_idx),
                                new_row as int,
                                new_col as int,
                            ));
                        }
                        return false;
                    }
                    // A block above the top row meets no cell, so only
                    // blocks inside the field are checked for overlap.
                    if grid_y >= 0 && self.play_grid[grid_y as usize][grid_x as usize].occupied {
                        proof {
                            assert(!block_ok(
                                self.play_grid,
                                new_row as int,
                                new_col as int,
                                r as int,
                                c as int,
                            ));
                            assert(with_state(*tetromino, state_idx).occ(r as int, c as int));
                            assert(!can_place(
                                self.play_grid,
                                with_state(*tetromino, state_idx),
                                new_row as int,
                                new_col as int,
                            ));
                        }
                        return false;
                    }
                }
                c += 1;
            }
            r += 1;
        }
        proof {
            assert forall|pr: int, pc: int| #[trigger] t2.occ(pr, pc) implies block_ok(
                self.play_grid,
                new_row as int,
                new_col as int,
                pr,
                pc,
            ) by {
                assert(0 <= pr < n && 0 <= pc < n);
            }
        }
        true
    }
}

/// All fields of `post` equal those of `pre` except the falling piece.
pub open spec fn only_piece_changed(pre: Game, post: Game) -> bool {
    post == (Game { current_tetromino: post.current_tetromino, ..pre })
}

/// The piece after a left move: one column left when that is legal,
/// otherwise unchanged.
pub open spec fn spec_move_left(g: Vec<Vec<Cell>>, t: Tetromino) -> Tetromino {
    if can_place(g, t, t.position.row as int, t.position.col - 1) {
        Tetromino {
            position: Position { row: t.position.row, col: (t.position.col - 1) as isize },
            ..t
        }
    } else {
        t
    }
}

/// The piece after a right move: one column right when that is legal,
/// otherwise unchanged.
pub open spec fn spec_move_right(g: Vec<Vec<Cell>>, t: Tetromino) -> Tetromino {
    if can_place(g, t, t.position.row as int, t.position.col + 1) {
        Tetromino {
            position: Position { row: t.position.row, col: (t.position.col + 1) as isize },
            ..t
        }
    } else {
        t
    }
}

/// The piece after one gravity or soft-drop step: one row down when that is
/// legal, otherwise unchanged.
pub open spec fn spec_move_down(g: Vec<Vec<Cell>>, t: Tetromino) -> Tetromino {
    if can_place(g, t, t.position.row + 1, t.position.col as int) {
        Tetromino {
            position: Position { row: (t.position.row + 1) as isize, col: t.position.col },
            ..t
        }
    } else {
        t
    }
}

/// The piece after a rotation: the next state in the cycle if it fits at
/// the same position, otherwise unchanged. No kick offsets are attempted.
pub open spec fn spec_rotate(g: Vec<Vec<Cell>>, t: Tetromino) -> Tetromino {
    let idx = spec_next_state_idx(t) as usize;
    if can_place(g, with_state(t, idx), t.position.row as int, t.position.col as int) {
        with_state(t, idx)
    } else {
        t
    }
}

/// The row where gravity stops a piece dropped from `row`: the first row at
/// or below `row` whose successor is an illegal placement.
pub open spec fn spec_drop_row(g: Vec<Vec<Cell>>, t: Tetromino, row: int) -> int
    decreases PLAY_HEIGHT - row,
{
    if row < PLAY_HEIGHT && can_place(g, t, row + 1, t.position.col as int) {
        spec_drop_row(g, t, row + 1)
    } else {
        row
    }
}

/// Placement legality depends only on the piece's state grids and current
/// state, never on its stored position.
pub proof fn lemma_can_place_position_irrelevant(
    g: Vec<Vec<Cell>>,
    t1: Tetromino,
    t2: Tetromino,
    row: int,
    col: int,
)
    requires
        t1.states == t2.states,
        t1.current_state == t2.current_state,
    ensures
        can_place(g, t1, row, col) == can_place(g, t2, row, col),
{
    assert forall|r: int, c: int| #[trigger] t1.occ(r, c) == t2.occ(r, c) by {
        assert(t1.state() == t2.state());
    }
    if can_place(g, t1, row, col) {
        assert forall|r: int, c: int| #[trigger] t2.occ(r, c) implies block_ok(
            g,
            row,
            col,
            r,
            c,
        ) by {
            assert(t1.occ(r, c));
        }
    }
    if can_place(g, t2, row, col) {
        assert forall|r: int, c: int| #[trigger] t1.occ(r, c) implies block_ok(
            g,
            row,
            col,
            r,
            c,
        ) by {
            assert(t2.occ(r, c));
        }
    }
}

impl Game {
    /// Move the falling piece one column left; an illegal destination
    /// leaves it unchanged.
    pub fn move_left(&mut self)
        requires
            old(self).wf(),
        ensures
            final(self).wf(),
            only_piece_changed(*old(self), *final(self)),
            final(self).current_tetromino == spec_move_left(
                old(self).play_grid,
                old(self).current_tetromino,
            ),
    {
        let row = self.current_tetromino.position.row;
        let col = self.current_tetromino.position.col;
        if col == isize::MIN {
            proof {
                lemma_can_place_far(
                    self.play_grid,
                    self.current_tetromino,
                    row as int,
                    col - 1,
                );
            }
            return;
        }
        if self.can_move(&self.current_tetromino, row, col - 1) {
            self.current_tetromino.position.col = col - 1;
            proof {
                lemma_can_place_position_irrelevant(
                    self.play_grid,
                    old(self).current_tetromino,
                    self.current_tetromino,
                    row as int,
                    col as int - 1,
                );
                lemma_can_place_in_bounds(self.play_grid, self.current_tetromino);
            }
        }
    }

    /// Move the falling piece one column right; an illegal destination
    /// leaves it unchanged.
    pub fn move_right(&mut self)
        requires
            old(self).wf(),
        ensures
            final(self).wf(),
            only_piece_changed(*old(self), *final(self)),
            final(self).current_tetromino == spec_move_right(
                old(self).play_grid,
                old(self).current_tetromino,
            ),
    {
        let row = self.current_tetromino.position.row;
        let col = self.current_tetromino.position.col;
        if col == isize::MAX {
            proof {
                lemma_can_place_far(
                    self.play_grid,
                    self.current_tetromino,
                    row as int,
                    col + 1,
                );
            }
            return;
        }
        if self.can_move(&self.current_tetromino, row, col + 1) {
            self.current_tetromino.position.col = col + 1;
            proof {
                lemma_can_place_position_irrelevant(
                    self.play_grid,
                    old(self).current_tetromino,
                    self.current_tetromino,
                    row as int,
                    col as int + 1,
                );
                lemma_can_place_in_bounds(self.play_grid, self.current_tetromino);
            }
        }
    }

    /// Move the falling piece one row down; an illegal destination leaves
    /// it unchanged. Used by gravity and by the soft drop.
    pub fn move_down(&mut self)
        requires
            old(self).wf(),
        ensures
            final(self).wf(),
            only_piece_changed(*old(self), *final(self)),
            final(self).current_tetromino == spec_move_down(
                old(self).play_grid,
                old(self).current_tetromino,
            ),
    {
        let row = self.current_tetromino.position.row;
        let col = self.current_tetromino.position.col;
        if row == isize::MAX {
            proof {
                lemma_can_place_far(
                    self.play_grid,
                    self.current_tetromino,
                    row + 1,
                    col as int,
                );
            }
            return;
        }
        if self.can_move(&self.current_tetromino, row + 1, col) {
            self.current_tetromino.position.row = row + 1;
            proof {
                lemma_can_place_position_irrelevant(
                    self.play_grid,
                    old(self).current_tetromino,
                    self.current_tetromino,
                    row as int + 1,
                    col as int,
                );
                lemma_can_place_in_bounds(self.play_grid, self.current_tetromino);
            }
        }
    }

    /// Rotate the falling piece to the next state in its cycle, in place;
    /// a rotation that would collide is simply rejected.
    pub fn rotate(&mut self)
        requires
            old(self).wf(),
        ensures
            final(self).wf(),
            only_piece_changed(*old(self), *final(self)),
            final(self).current_tetromino == spec_rotate(
                old(self).play_grid,
                old(self).current_tetromino,
            ),
    {
        let len = self.current_tetromino.states.len();
        let next_idx = (self.current_tetromino.current_state + 1) % len;
        let row = self.current_tetromino.position.row;
        let col = self.current_tetromino.position.col;
        if self.can_move_state(&self.current_tetromino, next_idx, row, col) {
            self.current_tetromino.current_state = next_idx;
            proof {
                lemma_can_place_in_bounds(self.play_grid, self.current_tetromino);
            }
        }
    }

    /// Drop the falling piece straight down to the lowest legal row; the
    /// caller locks it immediately afterwards.
    #[verifier::loop_isolation(false)]
    pub fn hard_drop(&mut self)
        requires
            old(self).wf(),
        ensures
            final(self).wf(),
            only_piece_changed(*old(self), *final(self)),
            final(self).current_tetromino == (Tetromino {
                position: Position {
                    row: spec_drop_row(
                        old(self).play_grid,
                        old(self).current_tetromino,
                        old(self).current_tetromino.position.row as int,
                    ) as isize,
                    col: old(self).current_tetromino.position.col,
                },
                ..old(self).current_tetromino
            }),
    {
        while self.current_tetromino.position.row < PLAY_HEIGHT as isize && self.can_move(
            &self.current_tetromino,
            self.current_tetromino.position.row + 1,
            self.current_tetromino.position.col,
        )
            invariant
                self.wf(),
                only_piece_changed(*old(self), *self),
                self.current_tetromino.states == old(self).current_tetromino.states,
                self.current_tetromino.current_state == old(
                    self,
                ).current_tetromino.current_state,
                self.current_tetromino.position.col == old(
                    self,
                ).current_tetromino.position.col,
                old(self).current_tetromino.position.row
                    <= self.current_tetromino.position.row,
                spec_drop_row(
                    old(self).play_grid,
                    old(self).current_tetromino,
                    self.current_tetromino.position.row as int,
                ) == spec_drop_row(
                    old(self).play_grid,
                    old(self).current_tetromino,
                    old(self).current_tetromino.position.row as int,
                ),
            decreases PLAY_HEIGHT as int - self.current_tetromino.position.row as int,
        {
            proof {
                lemma_can_place_position_irrelevant(
                    self.play_grid,
                    self.current_tetromino,
                    old(self).current_tetromino,
                    self.current_tetromino.position.row as int + 1,
                    self.current_tetromino.position.col as int,
                );
            }
            self.current_tetromino.position.row = self.current_tetromino.position.row + 1;
            proof {
                lemma_can_place_position_irrelevant(
                    self.play_grid,
                    old(self).current_tetromino,
                    self.current_tetromino,
                    self.current_tetromino.position.row as int,
                    self.current_tetromino.position.col as int,
                );
                lemma_can_place_in_bounds(self.play_grid, self.current_tetromino);
            }
        }
        proof {
            if self.current_tetromino.position.row < PLAY_HEIGHT as isize {
                lemma_can_place_position_irrelevant(
                    self.play_grid,
                    self.current_tetromino,
                    old(self).current_tetromino,
                    self.current_tetromino.position.row as int + 1,
                    self.current_tetromino.position.col as int,
                );
            }
        }
    }
}

/// One cell of a grid being locked row by row: covered cells whose block
/// was already copied (strictly before state row `upr`, or in state row
/// `upr` strictly before state column `upc`) show the piece's cell; all
/// others still show the old grid.
pub open spec fn lock_cell_partial(
    g0: Seq<Seq<Cell>>,
    t: Tetromino,
    row: int,
    col: int,
    upr: int,
    upc: int,
    gr: int,
    gc: int,
) -> Cell {
    if t.occ(gr - row, gc - col) && (gr - row < upr || (gr - row == upr && gc - col < upc)) {
        t.state()@[gr - row]@[gc - col]
    } else {
        g0[gr][gc]
    }
}

/// The grid after the piece's blocks are copied in: every cell the piece's
/// current state covers with a block takes that block, every other cell
/// keeps its old value.
pub open spec fn spec_lock_grid(gv: Seq<Seq<Cell>>, t: Tetromino) -> Seq<Seq<Cell>> {
    Seq::new(
        gv.len(),
        |gr: int|
            Seq::new(
                gv[gr].len(),
                |gc: int|
                    if t.occ(gr - t.position.row as int, gc - t.position.col as int) {
                        t.state()@[gr - t.position.row as int]@[gc - t.position.col as int]
                    } else {
                        gv[gr][gc]
                    },
            ),
    )
}

/// The grid after removing every filled row and inserting that many fully
/// empty rows at the top; unfilled rows keep their order.
pub open spec fn spec_clear(gv: Seq<Seq<Cell>>) -> Seq<Seq<Cell>> {
    Seq::new(filled_row_count(gv), |i: int| spec_empty_row(PLAY_WIDTH as nat)) + unfilled_rows(gv)
}

/// Points for simultaneously clearing `rows` rows at level `level`.
pub open spec fn spec_score_delta(rows: nat, level: nat) -> nat {
    (if rows == 1 {
        100nat
    } else if rows == 2 {
        300nat
    } else if rows == 3 {
        500nat
    } else if rows == 4 {
        800nat
    } else {
        0nat
    }) * (level + 1)
}

impl Game {
    /// Copy every block of the falling piece's current state into the grid.
    /// This is the only operation through which gameplay cells become part
    /// of the playfield. The piece must stand on a legal placement.
    #[verifier::loop_isolation(false)]
    pub fn lock_tetromino(&mut self)
        requires
            old(self).wf(),
        ensures
            final(self).wf(),
            *final(self) == (Game { play_grid: final(self).play_grid, ..*old(self) }),
            grid_view(final(self).play_grid) == spec_lock_grid(
                grid_view(old(self).play_grid),
                old(self).current_tetromino,
            ),
            forall|r: int, c: int|
                #[trigger] old(self).current_tetromino.occ(r, c)
                    ==> grid_view(final(self).play_grid)[
                    old(self).current_tetromino.position.row as int + r
                ][old(self).current_tetromino.position.col as int + c] == old(
                    self,
                ).current_tetromino.state()@[r]@[c],
            forall|gr: int, gc: int|
                0 <= gr < PLAY_HEIGHT && 0 <= gc < PLAY_WIDTH && !old(
                    self,
                ).current_tetromino.occ(
                    gr - old(self).current_tetromino.position.row as int,
                    gc - old(self).current_tetromino.position.col as int,
                ) ==> (#[trigger] grid_view(final(self).play_grid)[gr][gc]) == grid_view(
                    old(self).play_grid,
                )[gr][gc],
    {
        let ghost t = self.current_tetromino;
        let ghost g0 = grid_view(old(self).play_grid);
        let row = self.current_tetromino.position.row;
        let col = self.current_tetromino.position.col;
        let n = self.current_tetromino.states[self.current_tetromino.current_state].len();
        let mut r: usize = 0;
        while r < n
            invariant
                r <= n,
                n == t.size(),
                self.current_tetromino == t,
                grid_wf(self.play_grid),
                *self == (Game { play_grid: self.play_grid, ..*old(self) }),
                forall|gr: int, gc: int|
                    0 <= gr < PLAY_HEIGHT && 0 <= gc < PLAY_WIDTH
                        ==> (#[trigger] grid_view(self.play_grid)[gr][gc])
                        == lock_cell_partial(
                        g0, t, row as int, col as int, r as int, 0, gr, gc,
                    ),
            decreases n - r,
        {
            let mut c: usize = 0;
            while c < n
                invariant
                    c <= n,
                    r < n,
                    n == t.size(),
                    self.current_tetromino == t,
                    grid_wf(self.play_grid),
                    *self == (Game { play_grid: self.play_grid, ..*old(self) }),
                    forall|gr: int, gc: int|
                        0 <= gr < PLAY_HEIGHT && 0 <= gc < PLAY_WIDTH
                            ==> (#[trigger] grid_view(self.play_grid)[gr][gc])
                            == lock_cell_partial(
                            g0, t, row as int, col as int, r as int, c as int, gr, gc,
                        ),
                decreases n - c,
            {
                let cellv =
                    self.current_tetromino.states[self.current_tetromino.current_state][r][c];
                if cellv.occupied {
                    proof {
                        assert(t.occ(r as int, c as int));
                        assert(0 <= row as int + r < PLAY_HEIGHT);
                        assert(0 <= col as int + c < PLAY_WIDTH);
                    }
                    let gy = row + r as isize;
                    let gx = col + c as isize;
                    let mut rowv = self.play_grid[gy as usize].clone();
                    proof {
                        assert(rowv@ =~= self.play_grid@[gy as int]@);
                    }
                    rowv[gx as usize] = cellv;
                    self.play_grid[gy as usize] = rowv;
                }
                c += 1;
            }
            r += 1;
        }
        proof {
            assert(grid_view(self.play_grid) =~~= spec_lock_grid(g0, t));
        }
    }
}

impl Game {
    /// Remove every filled row, insert that many empty rows at the top,
    /// and award lines and score for the clear. Returns how many rows were
    /// cleared; the caller reports that count to the peer if one is
    /// connected.
    #[verifier::loop_isolation(false)]
    pub fn clear_filled_rows(&mut self) -> (cleared: usize)
        requires
            old(self).wf(),
            old(self).score <= usize::MAX - 17600,
            old(self).lines <= usize::MAX - PLAY_HEIGHT,
        ensures
            final(self).wf(),
            *final(self) == (Game {
                play_grid: final(self).play_grid,
                lines: final(self).lines,
                score: final(self).score,
                ..*old(self)
            }),
            cleared == filled_row_count(grid_view(old(self).play_grid)),
            grid_view(final(self).play_grid) == spec_clear(grid_view(old(self).play_grid)),
            final(self).lines == old(self).lines + cleared,
            final(self).score == old(self).score + spec_score_delta(
                cleared as nat,
                old(self).level as nat,
            ),
    {
        let ghost gv = grid_view(old(self).play_grid);
        let mut kept: Vec<Vec<Cell>> = Vec::new();
        let mut cleared: usize = 0;
        let mut r: usize = 0;
        while r < PLAY_HEIGHT
            invariant
                r <= PLAY_HEIGHT,
                *self == *old(self),
                cleared == filled_row_count(gv.take(r as int)),
                grid_view(kept) == unfilled_rows(gv.take(r as int)),
                cleared + kept@.len() == r,
                forall|i: int| 0 <= i < kept@.len() ==> (#[trigger] kept@[i])@.len() == PLAY_WIDTH,
            decreases PLAY_HEIGHT - r,
        {
            let ghost pre = gv.take(r as int);
            let ghost cur = gv.take(r as int + 1);
            proof {
                assert(cur.drop_last() =~= pre);
                assert(cur.last() == gv[r as int]);
                assert(gv[r as int] == self.play_grid@[r as int]@);
            }
            let filled = row_filled(&self.play_grid[r]);
            if filled {
                cleared += 1;
                proof {
                    assert(grid_view(kept) =~= unfilled_rows(cur));
                }
            } else {
                kept.push(self.play_grid[r].clone());
                proof {
                    assert(grid_view(kept) =~= unfilled_rows(cur));
                }
            }
            r += 1;
        }
        proof {
            assert(gv.take(PLAY_HEIGHT as int) =~= gv);
        }
        let empty_row = vec![empty_cell(); PLAY_WIDTH];
        proof {
            assert(empty_row@ =~= spec_empty_row(PLAY_WIDTH as nat));
        }
        let mut newg: Vec<Vec<Cell>> = Vec::new();
        let mut i: usize = 0;
        while i < cleared
            invariant
                i <= cleared,
                empty_row@ == spec_empty_row(PLAY_WIDTH as nat),
                newg@.len() == i,
                forall|j: int|
                    0 <= j < i ==> (#[trigger] newg@[j])@ == spec_empty_row(PLAY_WIDTH as nat),
            decreases cleared - i,
        {
            let next = empty_row.clone();
            proof {
                assert(next@ =~= empty_row@);
            }
            newg.push(next);
            i += 1;
        }
        newg.append(&mut kept);
        proof {
            crate::grid::lemma_unfilled_rows_len(gv);
            assert(grid_view(newg) =~~= spec_clear(gv));
        }
        self.play_grid = newg;
        self.lines = self.lines + cleared;
        let points: usize = match cleared {
            1 => 100,
            2 => 300,
            3 => 500,
            4 => 800,
            _ => 0,
        };
        let delta: usize = points * (self.level + 1);
        self.score = self.score + delta;
        cleared
    }
}

/// The gravity interval after `k` level-ups from the default: each one
/// takes a tenth off, by integer division.
pub open spec fn spec_decayed_interval(k: nat) -> int
    decreases k,
{
    if k == 0 {
        DEFAULT_INTERVAL as int
    } else {
        let p = spec_decayed_interval((k - 1) as nat);
        p - p / 10
    }
}

/// The decayed interval stays between zero and the default.
pub proof fn lemma_decayed_interval_bounds(k: nat)
    ensures
        0 <= spec_decayed_interval(k) <= DEFAULT_INTERVAL,
    decreases k,
{
    if k > 0 {
        lemma_decayed_interval_bounds((k - 1) as nat);
    }
}

/// Computes the gravity interval for a round that starts at the given
/// level: the default interval, decayed once per starting level.
fn initial_drop_interval(start_at_level: usize) -> (interval: u64)
    ensures
        interval as int == spec_decayed_interval(start_at_level as nat),
{
    let mut interval: u64 = DEFAULT_INTERVAL;
    let mut i: usize = 0;
    while i < start_at_level
        invariant
            i <= start_at_level,
            interval as int == spec_decayed_interval(i as nat),
        decreases start_at_level - i,
    {
        interval = interval - interval / 10;
        i += 1;
    }
    interval
}

/// The preview piece as it enters the playfield: same states and state
/// index, recentred at the top of the field by its visual width.
pub open spec fn spec_advance_piece(t: Tetromino) -> Tetromino {
    Tetromino {
        position: Position {
            row: 0,
            col: ((PLAY_WIDTH as int - spec_tetromino_width(t.states@[0]) as int) / 2) as isize,
        },
        ..t
    }
}

/// The level-up rule: another level is due while the level cap is not yet
/// passed and the cleared-line total has reached the next threshold.
pub open spec fn spec_level_up_due(g: Game) -> bool {
    g.level <= MAX_LEVEL && g.lines >= LINES_PER_LEVEL * (g.level + 1)
}

impl Game {
    /// Level-up check run once per tick: when enough lines are cleared,
    /// raise the level and take a tenth off the gravity interval. The
    /// level never decreases and the interval never grows.
    pub fn maybe_level_up(&mut self)
        requires
            old(self).wf(),
        ensures
            final(self).wf(),
            *final(self) == (Game {
                level: final(self).level,
                drop_interval: final(self).drop_interval,
                ..*old(self)
            }),
            final(self).level >= old(self).level,
            final(self).drop_interval <= old(self).drop_interval,
            spec_level_up_due(*old(self)) ==> final(self).level == old(self).level + 1
                && final(self).drop_interval == old(self).drop_interval - old(
                self,
            ).drop_interval / 10,
            !spec_level_up_due(*old(self)) ==> *final(self) == *old(self),
    {
        if self.level <= MAX_LEVEL && self.lines >= LINES_PER_LEVEL * (self.level + 1) {
            self.level = self.level + 1;
            self.drop_interval = self.drop_interval - self.drop_interval / 10;
        }
    }

    /// Promote the preview piece to the playfield, recentred at the top,
    /// and take a fresh piece for the preview.
    pub fn move_to_next(&mut self, new_next: Tetromino)
        requires
            old(self).wf(),
            new_next.wf(),
        ensures
            final(self).wf(),
            *final(self) == (Game {
                current_tetromino: final(self).current_tetromino,
                next_tetromino: final(self).next_tetromino,
                ..*old(self)
            }),
            final(self).current_tetromino == spec_advance_piece(old(self).next_tetromino),
            final(self).next_tetromino == new_next,
    {
        core::mem::swap(&mut self.current_tetromino, &mut self.next_tetromino);
        self.next_tetromino = new_next;
        proof {
            assert(state_wf(self.current_tetromino.states@[0]));
        }
        let w = tetromino_width(&self.current_tetromino.states[0]);
        self.current_tetromino.position.row = 0;
        self.current_tetromino.position.col = ((PLAY_WIDTH - w) / 2) as isize;
        proof {
            lemma_spawn_in_bounds(self.current_tetromino);
        }
    }

    /// A fresh session. The caller supplies the first two pieces from a
    /// spawner; the grid is built with the requested handicap rows and the
    /// gravity interval is pre-decayed to the starting level.
    pub fn new(
        current_tetromino: Tetromino,
        next_tetromino: Tetromino,
        start_with_number_of_filled_lines: usize,
        start_at_level: usize,
        multiplayer: bool,
    ) -> (game: Game)
        requires
            current_tetromino.wf(),
            piece_in_bounds(current_tetromino),
            next_tetromino.wf(),
            start_with_number_of_filled_lines <= PLAY_HEIGHT,
            start_at_level <= MAX_LEVEL,
        ensures
            game.wf(),
            game.current_tetromino == current_tetromino,
            game.next_tetromino == next_tetromino,
            game.lines == 0,
            game.level == start_at_level,
            game.score == 0,
            game.start_at_level == start_at_level,
            game.start_with_number_of_filled_lines == start_with_number_of_filled_lines,
            game.drop_interval as int == spec_decayed_interval(start_at_level as nat),
            game.phase == Phase::Playing,
            game.multiplayer == multiplayer,
            game.multiplayer_score == (MultiplayerScore { my_score: 0, competitor_score: 0 }),
            forall|r: int|
                0 <= r < PLAY_HEIGHT - start_with_number_of_filled_lines ==> #[trigger] grid_view(
                    game.play_grid,
                )[r] == spec_empty_row(PLAY_WIDTH as nat),
            forall|r: int|
                PLAY_HEIGHT - start_with_number_of_filled_lines <= r < PLAY_HEIGHT
                    ==> spec_garbage_row(#[trigger] grid_view(game.play_grid)[r], PLAY_WIDTH as nat),
    {
        let play_grid = crate::grid::create_grid(
            PLAY_WIDTH,
            PLAY_HEIGHT,
            start_with_number_of_filled_lines,
        );
        let drop_interval = initial_drop_interval(start_at_level);
        Game {
            play_grid,
            current_tetromino,
            next_tetromino,
            lines: 0,
            start_at_level,
            level: start_at_level,
            score: 0,
            drop_interval,
            phase: Phase::Playing,
            multiplayer,
            multiplayer_score: MultiplayerScore { my_score: 0, competitor_score: 0 },
            start_with_number_of_filled_lines,
        }
    }

    /// Start a fresh round in place: a new grid with the same handicap,
    /// the given pieces, zeroed statistics and a re-derived gravity
    /// interval. The win/loss tally and identity fields are kept.
    pub fn reset(&mut self, current_tetromino: Tetromino, next_tetromino: Tetromino)
        requires
            old(self).wf(),
            current_tetromino.wf(),
            piece_in_bounds(current_tetromino),
            next_tetromino.wf(),
        ensures
            final(self).wf(),
            spec_reset_to(*old(self), *final(self), current_tetromino, next_tetromino),
    {
        self.play_grid = crate::grid::create_grid(
            PLAY_WIDTH,
            PLAY_HEIGHT,
            self.start_with_number_of_filled_lines,
        );
        self.current_tetromino = current_tetromino;
        self.next_tetromino = next_tetromino;
        self.lines = 0;
        self.level = self.start_at_level;
        self.score = 0;
        self.drop_interval = initial_drop_interval(self.start_at_level);
        self.phase = Phase::Playing;
    }
}

/// The state of a freshly restarted round: a new grid with the same
/// handicap, the given pieces, zeroed statistics and a gravity interval
/// derived from the starting level; the win/loss tally, peer flag and
/// start parameters are kept.
pub open spec fn spec_reset_to(pre: Game, post: Game, cur: Tetromino, nxt: Tetromino) -> bool {
    &&& post.current_tetromino == cur
    &&& post.next_tetromino == nxt
    &&& post.lines == 0
    &&& post.level == pre.start_at_level
    &&& post.score == 0
    &&& post.drop_interval as int == spec_decayed_interval(pre.start_at_level as nat)
    &&& post.phase == Phase::Playing
    &&& post.multiplayer == pre.multiplayer
    &&& post.multiplayer_score == pre.multiplayer_score
    &&& post.start_at_level == pre.start_at_level
    &&& post.start_with_number_of_filled_lines == pre.start_with_number_of_filled_lines
    &&& post.play_grid@.len() == PLAY_HEIGHT
    &&& (forall|r: int|
        0 <= r < PLAY_HEIGHT - pre.start_with_number_of_filled_lines ==> #[trigger] grid_view(
            post.play_grid,
        )[r] == spec_empty_row(PLAY_WIDTH as nat))
    &&& (forall|r: int|
        PLAY_HEIGHT - pre.start_with_number_of_filled_lines <= r < PLAY_HEIGHT
            ==> spec_garbage_row(#[trigger] grid_view(post.play_grid)[r], PLAY_WIDTH as nat))
}

/// The round is lost when the freshly spawned piece can move neither left,
/// right nor down, and cannot rotate in place either.
pub open spec fn spec_game_over(g: Vec<Vec<Cell>>, t: Tetromino) -> bool {
    &&& !can_place(g, t, t.position.row as int, t.position.col as int - 1)
    &&& !can_place(g, t, t.position.row as int, t.position.col as int + 1)
    &&& !can_place(g, t, t.position.row as int + 1, t.position.col as int)
    &&& !can_place(
        g,
        with_state(t, spec_next_state_idx(t) as usize),
        t.position.row as int,
        t.position.col as int,
    )
}

/// A win/loss counter one higher, stopping at its ceiling.
pub open spec fn spec_tally_bump(x: u8) -> u8 {
    if x == 255 {
        255u8
    } else {
        (x + 1) as u8
    }
}

/// Everything one lock-and-advance step does: the piece's blocks join the
/// grid, filled rows are cleared and scored, the preview piece becomes the
/// falling piece with a fresh preview behind it, and a dead spawn ends the
/// round (raising the competitor's tally when a peer is connected).
pub open spec fn locked_and_advanced(
    pre: Game,
    post: Game,
    new_next: Tetromino,
    cleared: usize,
) -> bool {
    let locked = spec_lock_grid(grid_view(pre.play_grid), pre.current_tetromino);
    let over = spec_game_over(post.play_grid, post.current_tetromino);
    &&& cleared == filled_row_count(locked)
    &&& grid_view(post.play_grid) == spec_clear(locked)
    &&& post.lines == pre.lines + cleared
    &&& post.score == pre.score + spec_score_delta(cleared as nat, pre.level as nat)
    &&& post.current_tetromino == spec_advance_piece(pre.next_tetromino)
    &&& post.next_tetromino == new_next
    &&& post.phase == (if over {
        Phase::GameOver
    } else {
        pre.phase
    })
    &&& post.multiplayer_score.my_score == pre.multiplayer_score.my_score
    &&& post.multiplayer_score.competitor_score == (if over && pre.multiplayer {
        spec_tally_bump(pre.multiplayer_score.competitor_score)
    } else {
        pre.multiplayer_score.competitor_score
    })
    &&& post.level == pre.level
    &&& post.drop_interval == pre.drop_interval
    &&& post.multiplayer == pre.multiplayer
    &&& post.start_at_level == pre.start_at_level
    &&& post.start_with_number_of_filled_lines == pre.start_with_number_of_filled_lines
}

impl Game {
    /// Detect a dead spawn: the falling piece is blocked to the left, to
    /// the right and below, and cannot rotate in place.
    pub fn is_game_over(&self) -> (over: bool)
        requires
            self.wf(),
        ensures
            over == spec_game_over(self.play_grid, self.current_tetromino),
    {
        let row = self.current_tetromino.position.row;
        let col = self.current_tetromino.position.col;
        let left_ok = if col == isize::MIN {
            proof {
                lemma_can_place_far(
                    self.play_grid,
                    self.current_tetromino,
                    row as int,
                    col as int - 1,
                );
            }
            false
        } else {
            self.can_move(&self.current_tetromino, row, col - 1)
        };
        let right_ok = if col == isize::MAX {
            proof {
                lemma_can_place_far(
                    self.play_grid,
                    self.current_tetromino,
                    row as int,
                    col as int + 1,
                );
            }
            false
        } else {
            self.can_move(&self.current_tetromino, row, col + 1)
        };
        let down_ok = if row == isize::MAX {
            proof {
                lemma_can_place_far(
                    self.play_grid,
                    self.current_tetromino,
                    row as int + 1,
                    col as int,
                );
            }
            false
        } else {
            self.can_move(&self.current_tetromino, row + 1, col)
        };
        let len = self.current_tetromino.states.len();
        let next_idx = (self.current_tetromino.current_state + 1) % len;
        let rotate_ok = self.can_move_state(&self.current_tetromino, next_idx, row, col);
        !left_ok && !right_ok && !down_ok && !rotate_ok
    }

    /// Lock the falling piece, clear and score any filled rows, advance to
    /// the next piece and detect a dead spawn. Returns the cleared-row
    /// count; the caller reports it to the peer when one is connected.
    pub fn lock_and_move_to_next(&mut self, new_next: Tetromino) -> (cleared: usize)
        requires
            old(self).wf(),
            new_next.wf(),
            old(self).score <= usize::MAX - 17600,
            old(self).lines <= usize::MAX - PLAY_HEIGHT,
        ensures
            final(self).wf(),
            locked_and_advanced(*old(self), *final(self), new_next, cleared),
    {
        self.lock_tetromino();
        let cleared = self.clear_filled_rows();
        self.move_to_next(new_next);
        if self.is_game_over() {
            self.phase = Phase::GameOver;
            if self.multiplayer {
                self.multiplayer_score.competitor_score = if self
                    .multiplayer_score
                    .competitor_score == 255 {
                    255
                } else {
                    self.multiplayer_score.competitor_score + 1
                };
            }
        }
        cleared
    }

    /// One gravity step: the piece falls one row, or locks and advances
    /// when it cannot fall. Returns the number of rows a lock cleared,
    /// zero otherwise.
    pub fn gravity_step(&mut self, new_next: Tetromino) -> (cleared: usize)
        requires
            old(self).wf(),
            new_next.wf(),
            old(self).phase == Phase::Playing,
            old(self).score <= usize::MAX - 17600,
            old(self).lines <= usize::MAX - PLAY_HEIGHT,
        ensures
            final(self).wf(),
            can_place(
                old(self).play_grid,
                old(self).current_tetromino,
                old(self).current_tetromino.position.row as int + 1,
                old(self).current_tetromino.position.col as int,
            ) ==> cleared == 0 && only_piece_changed(*old(self), *final(self))
                && final(self).current_tetromino == spec_move_down(
                old(self).play_grid,
                old(self).current_tetromino,
            ),
            !can_place(
                old(self).play_grid,
                old(self).current_tetromino,
                old(self).current_tetromino.position.row as int + 1,
                old(self).current_tetromino.position.col as int,
            ) ==> locked_and_advanced(*old(self), *final(self), new_next, cleared),
    {
        let row = self.current_tetromino.position.row;
        let col = self.current_tetromino.position.col;
        let can_fall = if row == isize::MAX {
            proof {
                lemma_can_place_far(
                    self.play_grid,
                    self.current_tetromino,
                    row as int + 1,
                    col as int,
                );
            }
            false
        } else {
            self.can_move(&self.current_tetromino, row + 1, col)
        };
        if can_fall {
            self.move_down();
            0
        } else {
            self.lock_and_move_to_next(new_next)
        }
    }
}

/// The session just after a hard drop, before the piece is locked: the
/// falling piece has fallen to the lowest legal row.
pub open spec fn spec_hard_dropped(pre: Game) -> Game {
    Game {
        current_tetromino: Tetromino {
            position: Position {
                row: spec_drop_row(
                    pre.play_grid,
                    pre.current_tetromino,
                    pre.current_tetromino.position.row as int,
                ) as isize,
                col: pre.current_tetromino.position.col,
            },
            ..pre.current_tetromino
        },
        ..pre
    }
}

/// The gravity outcome shared by the drop timer and the soft drop: either
/// the piece fell one row, or it locked and the session advanced.
pub open spec fn gravity_outcome(pre: Game, post: Game, new_next: Tetromino, cleared: usize) -> bool {
    let falls = can_place(
        pre.play_grid,
        pre.current_tetromino,
        pre.current_tetromino.position.row as int + 1,
        pre.current_tetromino.position.col as int,
    );
    &&& falls ==> cleared == 0 && only_piece_changed(pre, post) && post.current_tetromino
        == spec_move_down(pre.play_grid, pre.current_tetromino)
    &&& !falls ==> locked_and_advanced(pre, post, new_next, cleared)
}

impl Game {
    /// Consume one discrete input during play. Movement keys move or
    /// rotate the piece; drops may lock it and advance the round; the
    /// pause and quit keys change only the control state. Returns the
    /// number of rows a lock cleared, zero otherwise.
    pub fn handle_input(&mut self, input: GameInput, new_next: Tetromino) -> (cleared: usize)
        requires
            old(self).wf(),
            new_next.wf(),
            old(self).phase == Phase::Playing,
            old(self).score <= usize::MAX - 17600,
            old(self).lines <= usize::MAX - PLAY_HEIGHT,
        ensures
            final(self).wf(),
            input == GameInput::MoveLeft ==> cleared == 0 && only_piece_changed(
                *old(self),
                *final(self),
            ) && final(self).current_tetromino == spec_move_left(
                old(self).play_grid,
                old(self).current_tetromino,
            ),
            input == GameInput::MoveRight ==> cleared == 0 && only_piece_changed(
                *old(self),
                *final(self),
            ) && final(self).current_tetromino == spec_move_right(
                old(self).play_grid,
                old(self).current_tetromino,
            ),
            input == GameInput::Rotate ==> cleared == 0 && only_piece_changed(
                *old(self),
                *final(self),
            ) && final(self).current_tetromino == spec_rotate(
                old(self).play_grid,
                old(self).current_tetromino,
            ),
            input == GameInput::SoftDrop ==> gravity_outcome(
                *old(self),
                *final(self),
                new_next,
                cleared,
            ),
            input == GameInput::HardDrop ==> locked_and_advanced(
                spec_hard_dropped(*old(self)),
                *final(self),
                new_next,
                cleared,
            ),
            input == GameInput::TogglePause ==> cleared == 0 && *final(self) == (Game {
                phase: Phase::Paused,
                ..*old(self)
            }),
            input == GameInput::Quit ==> cleared == 0 && *final(self) == (Game {
                phase: Phase::QuitConfirm,
                ..*old(self)
            }),
    {
        match input {
            GameInput::MoveLeft => {
                self.move_left();
                0
            },
            GameInput::MoveRight => {
                self.move_right();
                0
            },
            GameInput::Rotate => {
                self.rotate();
                0
            },
            GameInput::SoftDrop => { self.gravity_step(new_next) },
            GameInput::HardDrop => {
                self.hard_drop();
                self.lock_and_move_to_next(new_next)
            },
            GameInput::TogglePause => {
                self.phase = Phase::Paused;
                0
            },
            GameInput::Quit => {
                self.phase = Phase::QuitConfirm;
                0
            },
        }
    }

    /// Decide the pause menu: quit ends the session, anything else
    /// resumes play.
    pub fn pause_choice(&mut self, quit: bool)
        requires
            old(self).wf(),
            old(self).phase == Phase::Paused,
        ensures
            final(self).wf(),
            quit ==> *final(self) == (Game { phase: Phase::Terminated, ..*old(self) }),
            !quit ==> *final(self) == (Game { phase: Phase::Playing, ..*old(self) }),
    {
        if quit {
            self.phase = Phase::Terminated;
        } else {
            self.phase = Phase::Playing;
        }
    }

    /// Decide the quit prompt: confirmation ends the session, refusal
    /// resumes play.
    pub fn quit_confirm_choice(&mut self, confirm: bool)
        requires
            old(self).wf(),
            old(self).phase == Phase::QuitConfirm,
        ensures
            final(self).wf(),
            confirm ==> *final(self) == (Game { phase: Phase::Terminated, ..*old(self) }),
            !confirm ==> *final(self) == (Game { phase: Phase::Playing, ..*old(self) }),
    {
        if confirm {
            self.phase = Phase::Terminated;
        } else {
            self.phase = Phase::Playing;
        }
    }

    /// Decide the peer-notification prompt: continue resumes play,
    /// restart begins a fresh round with the given pieces, quit ends the
    /// session.
    pub fn notified_choice(
        &mut self,
        choice: MenuChoice,
        current_tetromino: Tetromino,
        next_tetromino: Tetromino,
    )
        requires
            old(self).wf(),
            old(self).phase == Phase::Notified,
            current_tetromino.wf(),
            piece_in_bounds(current_tetromino),
            next_tetromino.wf(),
        ensures
            final(self).wf(),
            choice == MenuChoice::Continue ==> *final(self) == (Game {
                phase: Phase::Playing,
                ..*old(self)
            }),
            choice == MenuChoice::Quit ==> *final(self) == (Game {
                phase: Phase::Terminated,
                ..*old(self)
            }),
            choice == MenuChoice::Restart ==> spec_reset_to(
                *old(self),
                *final(self),
                current_tetromino,
                next_tetromino,
            ),
    {
        match choice {
            MenuChoice::Continue => {
                self.phase = Phase::Playing;
            },
            MenuChoice::Quit => {
                self.phase = Phase::Terminated;
            },
            MenuChoice::Restart => {
                self.reset(current_tetromino, next_tetromino);
            },
        }
    }

    /// Decide the game-over screen: restart begins a fresh round with the
    /// given pieces, quit ends the session, anything else waits.
    pub fn game_over_choice(
        &mut self,
        choice: MenuChoice,
        current_tetromino: Tetromino,
        next_tetromino: Tetromino,
    )
        requires
            old(self).wf(),
            old(self).phase == Phase::GameOver,
            current_tetromino.wf(),
            piece_in_bounds(current_tetromino),
            next_tetromino.wf(),
        ensures
            final(self).wf(),
            choice == MenuChoice::Continue ==> *final(self) == *old(self),
            choice == MenuChoice::Quit ==> *final(self) == (Game {
                phase: Phase::Terminated,
                ..*old(self)
            }),
            choice == MenuChoice::Restart ==> spec_reset_to(
                *old(self),
                *final(self),
                current_tetromino,
                next_tetromino,
            ),
    {
        match choice {
            MenuChoice::Continue => {},
            MenuChoice::Quit => {
                self.phase = Phase::Terminated;
            },
            MenuChoice::Restart => {
                self.reset(current_tetromino, next_tetromino);
            },
        }
    }

    /// A peer notification arrived: play is interrupted by a modal prompt
    /// and this player's win tally rises by one, since the opponent just
    /// reported its own loss.
    pub fn apply_notification(&mut self)
        requires
            old(self).wf(),
            old(self).phase == Phase::Playing,
        ensures
            final(self).wf(),
            *final(self) == (Game {
                phase: Phase::Notified,
                multiplayer_score: final(self).multiplayer_score,
                ..*old(self)
            }),
            final(self).multiplayer_score == (MultiplayerScore {
                my_score: spec_tally_bump(old(self).multiplayer_score.my_score),
                competitor_score: old(self).multiplayer_score.competitor_score,
            }),
    {
        self.phase = Phase::Notified;
        self.multiplayer_score.my_score = if self.multiplayer_score.my_score == 255 {
            255
        } else {
            self.multiplayer_score.my_score + 1
        };
    }
}

/// How many rows a penalty of `rows` replaces: at most the whole field.
pub open spec fn spec_penalty_rows(rows: usize) -> int {
    if rows < PLAY_HEIGHT {
        rows as int
    } else {
        PLAY_HEIGHT as int
    }
}

/// The grid after `n` penalty rows arrive: the top `n` rows are gone and
/// `n` copies of the garbage row sit at the bottom.
pub open spec fn garbage_applied(
    g0: Seq<Seq<Cell>>,
    g1: Seq<Seq<Cell>>,
    n: int,
    garbage: Seq<Cell>,
) -> bool {
    g1 == g0.skip(n) + Seq::new(n as nat, |i: int| garbage)
}

impl Game {
    /// Apply a peer's line-clear penalty: discard that many rows from the
    /// top of the field, whether or not they are empty, and append as many
    /// garbage rows at the bottom, each fully occupied except one cell.
    #[verifier::loop_isolation(false)]
    pub fn apply_cleared_rows(&mut self, rows: usize)
        requires
            old(self).wf(),
            old(self).phase == Phase::Playing,
        ensures
            final(self).wf(),
            *final(self) == (Game { play_grid: final(self).play_grid, ..*old(self) }),
            exists|garbage: Seq<Cell>|
                #[trigger] garbage_applied(
                    grid_view(old(self).play_grid),
                    grid_view(final(self).play_grid),
                    spec_penalty_rows(rows),
                    garbage,
                ) && spec_garbage_row(garbage, PLAY_WIDTH as nat),
    {
        let new_row = garbage_row(PLAY_WIDTH);
        let n = if rows < PLAY_HEIGHT {
            rows
        } else {
            PLAY_HEIGHT
        };
        let ghost g0 = grid_view(old(self).play_grid);
        let mut i: usize = 0;
        while i < n
            invariant
                i <= n,
                n <= PLAY_HEIGHT,
                n == spec_penalty_rows(rows),
                grid_wf(self.play_grid),
                *self == (Game { play_grid: self.play_grid, ..*old(self) }),
                new_row@.len() == PLAY_WIDTH,
                spec_garbage_row(new_row@, PLAY_WIDTH as nat),
                grid_view(self.play_grid) == g0.skip(i as int) + Seq::new(
                    i as nat,
                    |j: int| new_row@,
                ),
            decreases n - i,
        {
            let ghost before = grid_view(self.play_grid);
            self.play_grid.remove(0);
            proof {
                assert(grid_view(self.play_grid) =~= before.skip(1));
            }
            let next = new_row.clone();
            proof {
                assert(next@ =~= new_row@);
            }
            self.play_grid.push(next);
            proof {
                assert(grid_view(self.play_grid) =~= before.skip(1).push(new_row@));
                assert(before.skip(1).push(new_row@) =~= g0.skip(i + 1) + Seq::new(
                    (i + 1) as nat,
                    |j: int| new_row@,
                ));
            }
            i += 1;
        }
        proof {
            assert(garbage_applied(
                g0,
                grid_view(self.play_grid),
                spec_penalty_rows(rows),
                new_row@,
            ));
        }
    }
}

/// Line-clear conservation: clearing restores the row count (the cleared
/// grid is exactly as tall as the original), and the number of occupied
/// cells never grows; it drops by one playfield width per cleared row.
pub proof fn lemma_clear_occupancy(g: Seq<Seq<Cell>>)
    requires
        forall|r: int| 0 <= r < g.len() ==> (#[trigger] g[r]).len() == PLAY_WIDTH,
    ensures
        spec_clear(g).len() == g.len(),
        grid_occupied_count(spec_clear(g)) + filled_row_count(g) * PLAY_WIDTH
            == grid_occupied_count(g),
        grid_occupied_count(spec_clear(g)) <= grid_occupied_count(g),
{
    crate::grid::lemma_unfilled_rows_len(g);
    crate::grid::lemma_unfilled_rows_occupied_count(g, PLAY_WIDTH as nat);
    let empties = Seq::new(filled_row_count(g), |i: int| spec_empty_row(PLAY_WIDTH as nat));
    crate::grid::lemma_grid_occupied_count_concat(empties, unfilled_rows(g));
    assert(grid_occupied_count(empties) == 0) by {
        lemma_empties_occupied_count(filled_row_count(g));
    }
    assert(filled_row_count(g) * PLAY_WIDTH >= 0) by (nonlinear_arith);
}

/// A stack of fully empty rows holds no occupied cells.
proof fn lemma_empties_occupied_count(k: nat)
    ensures
        grid_occupied_count(Seq::new(k, |i: int| spec_empty_row(PLAY_WIDTH as nat))) == 0,
    decreases k,
{
    let s = Seq::new(k, |i: int| spec_empty_row(PLAY_WIDTH as nat));
    if k > 0 {
        let pre = Seq::new((k - 1) as nat, |i: int| spec_empty_row(PLAY_WIDTH as nat));
        assert(s.drop_last() =~= pre);
        assert(s.last() == spec_empty_row(PLAY_WIDTH as nat));
        crate::grid::lemma_empty_row_occupied_count(PLAY_WIDTH as nat);
        lemma_empties_occupied_count((k - 1) as nat);
    }
}

/// The piece after `n` successive rotation attempts.
pub open spec fn spec_rotate_n(g: Vec<Vec<Cell>>, t: Tetromino, n: nat) -> Tetromino
    decreases n,
{
    if n == 0 {
        t
    } else {
        spec_rotate(g, spec_rotate_n(g, t, (n - 1) as nat))
    }
}

/// Stepping a residue forward: the successor of `a` modulo `n` is the
/// residue of `a`'s residue plus one.
#[verifier::spinoff_prover]
proof fn lemma_mod_step(a: int, n: int)
    requires
        0 < n,
        0 <= a,
    ensures
        (a % n + 1) % n == (a + 1) % n,
{
    vstd::arithmetic::div_mod::lemma_mod_bound(a, n);
    let k = a % n;
    if n == 1 {
        vstd::arithmetic::div_mod::lemma_mod_bound(k + 1, 1);
        vstd::arithmetic::div_mod::lemma_mod_bound(a + 1, 1);
        assert((k + 1) % 1 == 0 && (a + 1) % 1 == 0);
    } else {
        vstd::arithmetic::div_mod::lemma_small_mod(1nat, n as nat);
        assert(1int % n == 1);
        vstd::arithmetic::div_mod::lemma_mod_adds(a, 1, n);
        if k + 1 < n {
            assert((a + 1) % n == k + 1);
            vstd::arithmetic::div_mod::lemma_small_mod((k + 1) as nat, n as nat);
            assert((k + 1) % n == k + 1);
        } else {
            assert(k + 1 == n);
            assert(n % n == 0) by {
                vstd::arithmetic::div_mod::lemma_mod_self_0(n);
            }
            assert((k + 1) % n == 0);
            assert(n / n == 1) by (nonlinear_arith)
                requires
                    n >= 1,
            ;
            assert(a % n + 1int % n == n);
            assert((a % n + 1int % n) / n == 1);
            assert(n == (a + 1) % n + n * ((a % n + 1int % n) / n));
            assert(n * ((a % n + 1int % n) / n) == n) by (nonlinear_arith)
                requires
                    (a % n + 1int % n) / n == 1,
            ;
            assert((a + 1) % n == 0);
        }
    }
}

/// After `i` rotations that all fit, the piece shows state `(start + i)`
/// modulo the state count, at its original position.
proof fn lemma_rotate_iter(g: Vec<Vec<Cell>>, t: Tetromino, i: nat)
    requires
        t.wf(),
        forall|s: usize|
            s < t.states@.len() ==> can_place(
                g,
                #[trigger] with_state(t, s),
                t.position.row as int,
                t.position.col as int,
            ),
    ensures
        spec_rotate_n(g, t, i) == with_state(
            t,
            (((t.current_state + i) % (t.states@.len() as int)) as usize),
        ),
    decreases i,
{
    let n = t.states@.len() as int;
    if i == 0 {
        assert((t.current_state + 0) % n == t.current_state as int) by {
            vstd::arithmetic::div_mod::lemma_small_mod(t.current_state as nat, n as nat);
        }
        assert(with_state(t, t.current_state) == t);
    } else {
        lemma_rotate_iter(g, t, (i - 1) as nat);
        broadcast use vstd::std_specs::vec::axiom_spec_len;

        assert(t.states@.len() <= usize::MAX) by {
            assert(spec_vec_len(&t.states) == t.states@.len());
        }
        let a = t.current_state + (i - 1);
        assert(0 <= a % n < n) by {
            vstd::arithmetic::div_mod::lemma_mod_bound(a, n);
        }
        let k = (a % n) as usize;
        let prev = with_state(t, k);
        assert(0 <= (k + 1) % n < n) by {
            vstd::arithmetic::div_mod::lemma_mod_bound(k + 1, n);
        }
        let nxt = (((k + 1) % n) as usize);
        assert(spec_next_state_idx(prev) == nxt as int);
        assert(can_place(g, with_state(t, nxt), t.position.row as int, t.position.col as int));
        assert(with_state(prev, nxt) == with_state(t, nxt));
        assert(spec_rotate(g, prev) == with_state(t, nxt));
        lemma_mod_step(a, n);
        assert((k + 1) % n == (a + 1) % n);
        assert(a + 1 == t.current_state + i);
    }
}

/// Rotation is a closed cycle: when every rotation state fits at the
/// piece's position, rotating once per state returns the piece to its
/// original state index and position.
pub proof fn lemma_rotate_cycle(g: Vec<Vec<Cell>>, t: Tetromino)
    requires
        t.wf(),
        forall|s: usize|
            s < t.states@.len() ==> can_place(
                g,
                #[trigger] with_state(t, s),
                t.position.row as int,
                t.position.col as int,
            ),
    ensures
        spec_rotate_n(g, t, t.states@.len()) == t,
{
    let n = t.states@.len() as int;
    lemma_rotate_iter(g, t, t.states@.len());
    assert((t.current_state + n) % n == t.current_state as int) by {
        vstd::arithmetic::div_mod::lemma_mod_add_multiples_vanish(t.current_state as int, n);
        vstd::arithmetic::div_mod::lemma_small_mod(t.current_state as nat, n as nat);
    }
    assert(with_state(t, t.current_state) == t);
}

} // verus!
