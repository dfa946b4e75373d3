//! Shape geometry: well-formedness of a piece's rotation-state grids and the
//! visual width used to centre a freshly spawned piece.
use vstd::prelude::*;

use crate::cell::Cell;

verus! {

/// A state grid is square: every row is as long as the grid is tall.
pub open spec fn state_square(s: Vec<Vec<Cell>>) -> bool {
    forall|r: int| 0 <= r < s@.len() ==> (#[trigger] s@[r])@.len() == s@.len()
}

/// A state grid contains at least one block.
pub open spec fn state_has_block(s: Vec<Vec<Cell>>) -> bool {
    exists|r: int, c: int|
        0 <= r < s@.len() && 0 <= c < s@.len() && (#[trigger] s@[r]@[c]).occupied
}

/// A well-formed rotation state: a small square grid with at least one block.
pub open spec fn state_wf(s: Vec<Vec<Cell>>) -> bool {
    &&& 1 <= s@.len() <= 4
    &&& state_square(s)
    &&& state_has_block(s)
}

/// Column `c` of the state grid contains at least one block.
pub open spec fn col_has_block(s: Vec<Vec<Cell>>, c: int) -> bool {
    exists|r: int| 0 <= r < s@.len() && (#[trigger] s@[r])@[c].occupied
}

/// Number of columns below `c` that contain at least one block.
pub open spec fn occupied_cols_below(s: Vec<Vec<Cell>>, c: int) -> nat
    decreases c,
{
    if c <= 0 {
        0
    } else {
        occupied_cols_below(s, c - 1) + (if col_has_block(s, c - 1) {
            1nat
        } else {
            0nat
        })
    }
}

/// The visual width of a state grid: how many of its columns contain at
/// least one block. Centering uses this, not the raw grid width, so that
/// states with blank border columns centre correctly.
pub open spec fn spec_tetromino_width(s: Vec<Vec<Cell>>) -> nat {
    occupied_cols_below(s, s@[0]@.len() as int)
}

/// Counts the columns of a state grid that contain at least one block.
pub fn tetromino_width(tetromino: &Vec<Vec<Cell>>) -> (w: usize)
    requires
        tetromino@.len() > 0,
        forall|r: int|
            0 <= r < tetromino@.len() ==> (#[trigger] tetromino@[r])@.len()
                == tetromino@[0]@.len(),
    ensures
        w == spec_tetromino_width(*tetromino),
        w <= tetromino@[0]@.len(),
{
    let nrows = tetromino.len();
    let ncols = tetromino[0].len();
    let mut width: usize = 0;
    let mut c: usize = 0;
    while c < ncols
        invariant
            c <= ncols,
            nrows == tetromino@.len(),
            ncols == tetromino@[0]@.len(),
            tetromino@.len() > 0,
            forall|r: int|
                0 <= r < tetromino@.len() ==> (#[trigger] tetromino@[r])@.len()
                    == tetromino@[0]@.len(),
            width == occupied_cols_below(*tetromino, c as int),
            width <= c,
        decreases ncols - c,
    {
        let mut r: usize = 0;
        let mut found = false;
        while r < nrows
            invariant
                r <= nrows,
                c < ncols,
                nrows == tetromino@.len(),
                ncols == tetromino@[0]@.len(),
                forall|rr: int|
                    0 <= rr < tetromino@.len() ==> (#[trigger] tetromino@[rr])@.len()
                        == tetromino@[0]@.len(),
                found == exists|rr: int|
                    0 <= rr < r && (#[trigger] tetromino@[rr])@[c as int].occupied,
            decreases nrows - r,
        {
            if tetromino[r][c].occupied {
                found = true;
            }
            r += 1;
        }
        assert(found == col_has_block(*tetromino, c as int));
        if found {
            width += 1;
        }
        c += 1;
    }
    width
}

} // verus!
