//! Pieces: position, rotation states, the shape catalog and the spawner.
use vstd::prelude::*;

use crate::cell::{
    empty_cell, i_cell, j_cell, l_cell, o_cell, s_cell, spec_empty_cell, spec_i_cell,
    spec_j_cell, spec_l_cell, spec_o_cell, spec_s_cell, spec_t_cell, spec_z_cell, t_cell,
    z_cell, Cell,
};
use crate::rng::random_below;
use crate::shapes::{spec_tetromino_width, state_wf, tetromino_width};
use crate::{NEXT_WIDTH, PLAY_WIDTH};

verus! {

/// Location of a piece's state grid within the playfield: the coordinates of
/// the state grid's top-left corner. Blank border rows and columns of the
/// state grid may legally lie outside the field, so both can be negative.
#[derive(Clone, Copy, Debug, PartialEq, Eq, Structural)]
pub struct Position {
    /// Playfield row of the state grid's top-left corner; row 0 is the top.
    pub row: isize,
    /// Playfield column of the state grid's top-left corner.
    pub col: isize,
}

/// A piece: an ordered list of rotation-state grids, the index of the
/// current state, and the position of the state grid in the playfield.
/// Rotation cycles through the fixed list of states.
#[derive(Clone, Debug)]
pub struct Tetromino {
    /// The rotation states, in cycling order.
    pub states: Vec<Vec<Vec<Cell>>>,
    /// Index of the current rotation state.
    pub current_state: usize,
    /// Where the current state grid sits in the playfield.
    pub position: Position,
}

/// A usable list of rotation states: nonempty, every state well-formed.
pub open spec fn states_wf(states: Vec<Vec<Vec<Cell>>>) -> bool {
    &&& 0 < states@.len()
    &&& forall|i: int| 0 <= i < states@.len() ==> state_wf(#[trigger] states@[i])
}

impl Tetromino {
    /// Well-formedness: a nonempty list of well-formed square states and a
    /// valid current-state index.
    pub open spec fn wf(self) -> bool {
        &&& states_wf(self.states)
        &&& self.current_state < self.states@.len()
    }

    /// The grid of the current rotation state.
    pub open spec fn state(self) -> Vec<Vec<Cell>> {
        self.states@[self.current_state as int]
    }

    /// Side length of the current state grid.
    pub open spec fn size(self) -> int {
        self.state()@.len() as int
    }

    /// Whether the current state grid has a block at row `r`, column `c` of
    /// the grid's own coordinates.
    pub open spec fn occ(self, r: int, c: int) -> bool {
        &&& 0 <= r < self.size()
        &&& 0 <= c < self.size()
        &&& self.state()@[r]@[c].occupied
    }

    /// The grid of the current rotation state.
    pub fn get_cells(&self) -> (cells: &Vec<Vec<Cell>>)
        requires
            self.wf(),
        ensures
            *cells == self.state(),
    {
        &self.states[self.current_state]
    }
}

/// The rotation states of a piece, as fully unwrapped cell grids, for
/// comparison with the fixed catalog below.
pub open spec fn states_view(states: Vec<Vec<Vec<Cell>>>) -> Seq<Seq<Seq<Cell>>> {
    states@.map_values(|st: Vec<Vec<Cell>>| st@.map_values(|row: Vec<Cell>| row@))
}

/// The I piece's four hand-authored rotation states.
pub open spec fn spec_i_states() -> Seq<Seq<Seq<Cell>>> {
    let e = spec_empty_cell();
    let i = spec_i_cell();
    seq![
        seq![seq![e, e, e, e], seq![i, i, i, i], seq![e, e, e, e], seq![e, e, e, e]],
        seq![seq![e, e, i, e], seq![e, e, i, e], seq![e, e, i, e], seq![e, e, i, e]],
        seq![seq![e, e, e, e], seq![e, e, e, e], seq![i, i, i, i], seq![e, e, e, e]],
        seq![seq![e, i, e, e], seq![e, i, e, e], seq![e, i, e, e], seq![e, i, e, e]],
    ]
}

/// The O piece's single rotation state.
pub open spec fn spec_o_states() -> Seq<Seq<Seq<Cell>>> {
    let o = spec_o_cell();
    seq![seq![seq![o, o], seq![o, o]]]
}

/// The T piece's four hand-authored rotation states.
pub open spec fn spec_t_states() -> Seq<Seq<Seq<Cell>>> {
    let e = spec_empty_cell();
    let t = spec_t_cell();
    seq![
        seq![seq![e, t, e], seq![t, t, t], seq![e, e, e]],
        seq![seq![e, t, e], seq![e, t, t], seq![e, t, e]],
        seq![seq![e, e, e], seq![t, t, t], seq![e, t, e]],
        seq![seq![e, t, e], seq![t, t, e], seq![e, t, e]],
    ]
}

/// The S piece's four hand-authored rotation states.
pub open spec fn spec_s_states() -> Seq<Seq<Seq<Cell>>> {
    let e = spec_empty_cell();
    let s = spec_s_cell();
    seq![
        seq![seq![e, s, s], seq![s, s, e], seq![e, e, e]],
        seq![seq![e, s, e], seq![e, s, s], seq![e, e, s]],
        seq![seq![e, e, e], seq![e, s, s], seq![s, s, e]],
        seq![seq![s, e, e], seq![s, s, e], seq![e, s, e]],
    ]
}

/// The Z piece's four hand-authored rotation states.
pub open spec fn spec_z_states() -> Seq<Seq<Seq<Cell>>> {
    let e = spec_empty_cell();
    let z = spec_z_cell();
    seq![
        seq![seq![z, z, e], seq![e, z, z], seq![e, e, e]],
        seq![seq![e, e, z], seq![e, z, z], seq![e, z, e]],
        seq![seq![e, e, e], seq![z, z, e], seq![e, z, z]],
        seq![seq![e, z, e], seq![z, z, e], seq![z, e, e]],
    ]
}

/// The J piece's four hand-authored rotation states.
pub open spec fn spec_j_states() -> Seq<Seq<Seq<Cell>>> {
    let e = spec_empty_cell();
    let j = spec_j_cell();
    seq![
        seq![seq![j, e, e], seq![j, j, j], seq![e, e, e]],
        seq![seq![e, j, j], seq![e, j, e], seq![e, j, e]],
        seq![seq![e, e, e], seq![j, j, j], seq![e, e, j]],
        seq![seq![e, j, e], seq![e, j, e], seq![j, j, e]],
    ]
}

/// The L piece's four hand-authored rotation states.
pub open spec fn spec_l_states() -> Seq<Seq<Seq<Cell>>> {
    let e = spec_empty_cell();
    let l = spec_l_cell();
    seq![
        seq![seq![e, e, l], seq![l, l, l], seq![e, e, e]],
        seq![seq![e, l, e], seq![e, l, e], seq![e, l, l]],
        seq![seq![e, e, e], seq![l, l, l], seq![l, e, e]],
        seq![seq![l, l, e], seq![e, l, e], seq![e, l, e]],
    ]
}

/// The fixed, hand-authored shape catalog, by kind index, in the order
/// I, O, T, S, Z, J, L.
pub open spec fn spec_catalog(kind: int) -> Seq<Seq<Seq<Cell>>> {
    if kind == 0 {
        spec_i_states()
    } else if kind == 1 {
        spec_o_states()
    } else if kind == 2 {
        spec_t_states()
    } else if kind == 3 {
        spec_s_states()
    } else if kind == 4 {
        spec_z_states()
    } else if kind == 5 {
        spec_j_states()
    } else {
        spec_l_states()
    }
}

fn i_states() -> (r: Vec<Vec<Vec<Cell>>>)
    ensures
        states_view(r) == spec_i_states(),
        states_wf(r),
{
    let states = vec![
        vec![
            vec![empty_cell(), empty_cell(), empty_cell(), empty_cell()],
            vec![i_cell(), i_cell(), i_cell(), i_cell()],
            vec![empty_cell(), empty_cell(), empty_cell(), empty_cell()],
            vec![empty_cell(), empty_cell(), empty_cell(), empty_cell()],
        ],
        vec![
            vec![empty_cell(), empty_cell(), i_cell(), empty_cell()],
            vec![empty_cell(), empty_cell(), i_cell(), empty_cell()],
            vec![empty_cell(), empty_cell(), i_cell(), empty_cell()],
            vec![empty_cell(), empty_cell(), i_cell(), empty_cell()],
        ],
        vec![
            vec![empty_cell(), empty_cell(), empty_cell(), empty_cell()],
            vec![empty_cell(), empty_cell(), empty_cell(), empty_cell()],
            vec![i_cell(), i_cell(), i_cell(), i_cell()],
            vec![empty_cell(), empty_cell(), empty_cell(), empty_cell()],
        ],
        vec![
            vec![empty_cell(), i_cell(), empty_cell(), empty_cell()],
            vec![empty_cell(), i_cell(), empty_cell(), empty_cell()],
            vec![empty_cell(), i_cell(), empty_cell(), empty_cell()],
            vec![empty_cell(), i_cell(), empty_cell(), empty_cell()],
        ],
    ];
    proof {
        assert(states_view(states) =~~= spec_i_states());
        assert(states@[0]@[1]@[0].occupied);
        assert(states@[1]@[0]@[2].occupied);
        assert(states@[2]@[2]@[0].occupied);
        assert(states@[3]@[0]@[1].occupied);
        assert(states_wf(states));
    }
    states
}

fn o_states() -> (r: Vec<Vec<Vec<Cell>>>)
    ensures
        states_view(r) == spec_o_states(),
        states_wf(r),
{
    let states = vec![vec![vec![o_cell(), o_cell()], vec![o_cell(), o_cell()]]];
    proof {
        assert(states_view(states) =~~= spec_o_states());
        assert(states@[0]@[0]@[0].occupied);
        assert(states_wf(states));
    }
    states
}

fn t_states() -> (r: Vec<Vec<Vec<Cell>>>)
    ensures
        states_view(r) == spec_t_states(),
        states_wf(r),
{
    let states = vec![
        vec![
            vec![empty_cell(), t_cell(), empty_cell()],
            vec![t_cell(), t_cell(), t_cell()],
            vec![empty_cell(), empty_cell(), empty_cell()],
        ],
        vec![
            vec![empty_cell(), t_cell(), empty_cell()],
            vec![empty_cell(), t_cell(), t_cell()],
            vec![empty_cell(), t_cell(), empty_cell()],
        ],
        vec![
            vec![empty_cell(), empty_cell(), empty_cell()],
            vec![t_cell(), t_cell(), t_cell()],
            vec![empty_cell(), t_cell(), empty_cell()],
        ],
        vec![
            vec![empty_cell(), t_cell(), empty_cell()],
            vec![t_cell(), t_cell(), empty_cell()],
            vec![empty_cell(), t_cell(), empty_cell()],
        ],
    ];
    proof {
        assert(states_view(states) =~~= spec_t_states());
        assert(states@[0]@[0]@[1].occupied);
        assert(states@[1]@[0]@[1].occupied);
        assert(states@[2]@[1]@[0].occupied);
        assert(states@[3]@[0]@[1].occupied);
        assert(states_wf(states));
    }
    states
}

fn s_states() -> (r: Vec<Vec<Vec<Cell>>>)
    ensures
        states_view(r) == spec_s_states(),
        states_wf(r),
{
    let states = vec![
        vec![
            vec![empty_cell(), s_cell(), s_cell()],
            vec![s_cell(), s_cell(), empty_cell()],
            vec![empty_cell(), empty_cell(), empty_cell()],
        ],
        vec![
            vec![empty_cell(), s_cell(), empty_cell()],
            vec![empty_cell(), s_cell(), s_cell()],
            vec![empty_cell(), empty_cell(), s_cell()],
        ],
        vec![
            vec![empty_cell(), empty_cell(), empty_cell()],
            vec![empty_cell(), s_cell(), s_cell()],
            vec![s_cell(), s_cell(), empty_cell()],
        ],
        vec![
            vec![s_cell(), empty_cell(), empty_cell()],
            vec![s_cell(), s_cell(), empty_cell()],
            vec![empty_cell(), s_cell(), empty_cell()],
        ],
    ];
    proof {
        assert(states_view(states) =~~= spec_s_states());
        assert(states@[0]@[0]@[1].occupied);
        assert(states@[1]@[0]@[1].occupied);
        assert(states@[2]@[1]@[1].occupied);
        assert(states@[3]@[0]@[0].occupied);
        assert(states_wf(states));
    }
    states
}

fn z_states() -> (r: Vec<Vec<Vec<Cell>>>)
    ensures
        states_view(r) == spec_z_states(),
        states_wf(r),
{
    let states = vec![
        vec![
            vec![z_cell(), z_cell(), empty_cell()],
            vec![empty_cell(), z_cell(), z_cell()],
            vec![empty_cell(), empty_cell(), empty_cell()],
        ],
        vec![
            vec![empty_cell(), empty_cell(), z_cell()],
            vec![empty_cell(), z_cell(), z_cell()],
            vec![empty_cell(), z_cell(), empty_cell()],
        ],
        vec![
            vec![empty_cell(), empty_cell(), empty_cell()],
            vec![z_cell(), z_cell(), empty_cell()],
            vec![empty_cell(), z_cell(), z_cell()],
        ],
        vec![
            vec![empty_cell(), z_cell(), empty_cell()],
            vec![z_cell(), z_cell(), empty_cell()],
            vec![z_cell(), empty_cell(), empty_cell()],
        ],
    ];
    proof {
        assert(states_view(states) =~~= spec_z_states());
        assert(states@[0]@[0]@[0].occupied);
        assert(states@[1]@[0]@[2].occupied);
        assert(states@[2]@[1]@[0].occupied);
        assert(states@[3]@[0]@[1].occupied);
        assert(states_wf(states));
    }
    states
}

fn j_states() -> (r: Vec<Vec<Vec<Cell>>>)
    ensures
        states_view(r) == spec_j_states(),
        states_wf(r),
{
    let states = vec![
        vec![
            vec![j_cell(), empty_cell(), empty_cell()],
            vec![j_cell(), j_cell(), j_cell()],
            vec![empty_cell(), empty_cell(), empty_cell()],
        ],
        vec![
            vec![empty_cell(), j_cell(), j_cell()],
            vec![empty_cell(), j_cell(), empty_cell()],
            vec![empty_cell(), j_cell(), empty_cell()],
        ],
        vec![
            vec![empty_cell(), empty_cell(), empty_cell()],
            vec![j_cell(), j_cell(), j_cell()],
            vec![empty_cell(), empty_cell(), j_cell()],
        ],
        vec![
            vec![empty_cell(), j_cell(), empty_cell()],
            vec![empty_cell(), j_cell(), empty_cell()],
            vec![j_cell(), j_cell(), empty_cell()],
        ],
    ];
    proof {
        assert(states_view(states) =~~= spec_j_states());
        assert(states@[0]@[0]@[0].occupied);
        assert(states@[1]@[0]@[1].occupied);
        assert(states@[2]@[1]@[0].occupied);
        assert(states@[3]@[0]@[1].occupied);
        assert(states_wf(states));
    }
    states
}

fn l_states() -> (r: Vec<Vec<Vec<Cell>>>)
    ensures
        states_view(r) == spec_l_states(),
        states_wf(r),
{
    let states = vec![
        vec![
            vec![empty_cell(), empty_cell(), l_cell()],
            vec![l_cell(), l_cell(), l_cell()],
            vec![empty_cell(), empty_cell(), empty_cell()],
        ],
        vec![
            vec![empty_cell(), l_cell(), empty_cell()],
            vec![empty_cell(), l_cell(), empty_cell()],
            vec![empty_cell(), l_cell(), l_cell()],
        ],
        vec![
            vec![empty_cell(), empty_cell(), empty_cell()],
            vec![l_cell(), l_cell(), l_cell()],
            vec![l_cell(), empty_cell(), empty_cell()],
        ],
        vec![
            vec![l_cell(), l_cell(), empty_cell()],
            vec![empty_cell(), l_cell(), empty_cell()],
            vec![empty_cell(), l_cell(), empty_cell()],
        ],
    ];
    proof {
        assert(states_view(states) =~~= spec_l_states());
        assert(states@[0]@[0]@[2].occupied);
        assert(states@[1]@[0]@[1].occupied);
        assert(states@[2]@[1]@[0].occupied);
        assert(states@[3]@[0]@[0].occupied);
        assert(states_wf(states));
    }
    states
}

/// The rotation states of piece kind `kind`, in the catalog order
/// I, O, T, S, Z, J, L.
pub fn tetromino_states(kind: usize) -> (states: Vec<Vec<Vec<Cell>>>)
    requires
        kind < 7,
    ensures
        states_view(states) == spec_catalog(kind as int),
        states_wf(states),
{
    match kind {
        0 => i_states(),
        1 => o_states(),
        2 => t_states(),
        3 => s_states(),
        4 => z_states(),
        5 => j_states(),
        _ => l_states(),
    }
}

/// Spawn row: the top of the field for the active piece, a fixed offset
/// inside the preview area for the next piece.
pub open spec fn spec_spawn_row(is_next: bool) -> int {
    if is_next {
        2int
    } else {
        0int
    }
}

/// Spawn column: centres the piece's visual width in the playfield, or in
/// the narrower preview area for the next piece.
pub open spec fn spec_spawn_col(w: nat, is_next: bool) -> int {
    if is_next {
        (NEXT_WIDTH as int - w as int) / 2
    } else {
        (PLAY_WIDTH as int - w as int) / 2
    }
}

/// A source of fresh pieces. The game loop injects an implementation, so a
/// test can substitute a scripted spawner for the random one.
pub trait TetrominoSpawner {
    /// Produce a piece whose rotation states are one of the seven catalog
    /// entries, in its first state, centred for the playfield
    /// (`is_next == false`) or for the preview area (`is_next == true`).
    fn spawn(&self, is_next: bool) -> (t: Tetromino)
        ensures
            t.wf(),
            exists|k: int| 0 <= k < 7 && states_view(t.states) == #[trigger] spec_catalog(k),
            t.current_state == 0,
            t.position.row as int == spec_spawn_row(is_next),
            t.position.col as int == spec_spawn_col(
                spec_tetromino_width(t.states@[0]),
                is_next,
            ),
    ;
}

/// Spawns a piece of a uniformly random kind.
pub struct RandomTetromino;

impl TetrominoSpawner for RandomTetromino {
    fn spawn(&self, is_next: bool) -> (t: Tetromino) {
        let kind = random_below(7);
        let states = tetromino_states(kind);
        proof {
            assert(state_wf(states@[0]));
            assert(states_view(states) == spec_catalog(kind as int));
        }
        let w = tetromino_width(&states[0]);
        let row: isize = if is_next {
            2
        } else {
            0
        };
        let col: isize = if is_next {
            ((NEXT_WIDTH - w) / 2) as isize
        } else {
            ((PLAY_WIDTH - w) / 2) as isize
        };
        Tetromino { states, current_state: 0, position: Position { row, col } }
    }
}

} // verus!
