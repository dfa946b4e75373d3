//! The playfield grid: rectangular well-formedness, filled rows, occupancy
//! counts, and construction with pre-filled handicap rows.
use vstd::prelude::*;

use crate::cell::{
    empty_cell, i_cell, j_cell, l_cell, o_cell, s_cell, t_cell, z_cell, Cell, CellColor,
};
use crate::rng::random_below;
use crate::{PLAY_HEIGHT, PLAY_WIDTH};

verus! {

/// A playfield grid is a `PLAY_HEIGHT` by `PLAY_WIDTH` rectangle of cells.
pub open spec fn grid_wf(g: Vec<Vec<Cell>>) -> bool {
    &&& g@.len() == PLAY_HEIGHT
    &&& forall|r: int| 0 <= r < g@.len() ==> (#[trigger] g@[r])@.len() == PLAY_WIDTH
}

/// The grid as a sequence of rows of cells.
pub open spec fn grid_view(g: Vec<Vec<Cell>>) -> Seq<Seq<Cell>> {
    g@.map_values(|row: Vec<Cell>| row@)
}

/// A row is filled when every one of its cells is occupied.
pub open spec fn spec_row_filled(row: Seq<Cell>) -> bool {
    forall|c: int| 0 <= c < row.len() ==> (#[trigger] row[c]).occupied
}

/// A fully empty row of the given width.
pub open spec fn spec_empty_row(width: nat) -> Seq<Cell> {
    Seq::new(width, |c: int| Cell { occupied: false, color: CellColor::Reset })
}

/// The row of width `width` is occupied everywhere except at column `e`.
pub open spec fn garbage_row_with_hole(row: Seq<Cell>, width: nat, e: int) -> bool {
    &&& 0 <= e < width
    &&& forall|c: int| 0 <= c < width ==> ((#[trigger] row[c]).occupied <==> c != e)
}

/// A penalty row: exactly one cell empty, every other cell occupied.
pub open spec fn spec_garbage_row(row: Seq<Cell>, width: nat) -> bool {
    &&& row.len() == width
    &&& exists|e: int| #[trigger] garbage_row_with_hole(row, width, e)
}

/// Number of occupied cells in a row.
pub open spec fn row_occupied_count(row: Seq<Cell>) -> nat
    decreases row.len(),
{
    if row.len() == 0 {
        0
    } else {
        row_occupied_count(row.drop_last()) + (if row.last().occupied {
            1nat
        } else {
            0nat
        })
    }
}

/// Number of occupied cells in a whole grid.
pub open spec fn grid_occupied_count(g: Seq<Seq<Cell>>) -> nat
    decreases g.len(),
{
    if g.len() == 0 {
        0
    } else {
        grid_occupied_count(g.drop_last()) + row_occupied_count(g.last())
    }
}

/// The rows of a grid that are not filled, in their original order.
pub open spec fn unfilled_rows(g: Seq<Seq<Cell>>) -> Seq<Seq<Cell>>
    decreases g.len(),
{
    if g.len() == 0 {
        Seq::empty()
    } else {
        unfilled_rows(g.drop_last()) + (if spec_row_filled(g.last()) {
            Seq::<Seq<Cell>>::empty()
        } else {
            seq![g.last()]
        })
    }
}

/// How many rows of a grid are filled.
pub open spec fn filled_row_count(g: Seq<Seq<Cell>>) -> nat
    decreases g.len(),
{
    if g.len() == 0 {
        0
    } else {
        filled_row_count(g.drop_last()) + (if spec_row_filled(g.last()) {
            1nat
        } else {
            0nat
        })
    }
}

/// The unfilled rows are never more numerous than all rows, and together
/// with the filled ones they account for every row.
pub proof fn lemma_unfilled_rows_len(g: Seq<Seq<Cell>>)
    ensures
        unfilled_rows(g).len() + filled_row_count(g) == g.len(),
    decreases g.len(),
{
    if g.len() > 0 {
        lemma_unfilled_rows_len(g.drop_last());
    }
}

/// A filled row has as many occupied cells as it has cells.
pub proof fn lemma_filled_row_occupied_count(row: Seq<Cell>)
    requires
        spec_row_filled(row),
    ensures
        row_occupied_count(row) == row.len(),
    decreases row.len(),
{
    if row.len() > 0 {
        assert(spec_row_filled(row.drop_last())) by {
            assert(forall|c: int|
                0 <= c < row.len() - 1 ==> (#[trigger] row.drop_last()[c]) == row[c]);
        }
        lemma_filled_row_occupied_count(row.drop_last());
    }
}

/// A fully empty row has no occupied cells.
pub proof fn lemma_empty_row_occupied_count(width: nat)
    ensures
        row_occupied_count(spec_empty_row(width)) == 0,
    decreases width,
{
    if width > 0 {
        assert(spec_empty_row(width).drop_last() =~= spec_empty_row((width - 1) as nat));
        lemma_empty_row_occupied_count((width - 1) as nat);
    }
}

/// Occupied cells add up over a concatenation of grids.
pub proof fn lemma_grid_occupied_count_concat(a: Seq<Seq<Cell>>, b: Seq<Seq<Cell>>)
    ensures
        grid_occupied_count(a + b) == grid_occupied_count(a) + grid_occupied_count(b),
    decreases b.len(),
{
    if b.len() == 0 {
        assert(a + b =~= a);
    } else {
        assert((a + b).drop_last() =~= a + b.drop_last());
        assert((a + b).last() == b.last());
        lemma_grid_occupied_count_concat(a, b.drop_last());
    }
}

/// A grid of equally wide rows holds the occupied cells of its unfilled
/// rows plus one full row of cells per filled row.
pub proof fn lemma_unfilled_rows_occupied_count(g: Seq<Seq<Cell>>, width: nat)
    requires
        forall|r: int| 0 <= r < g.len() ==> (#[trigger] g[r]).len() == width,
    ensures
        grid_occupied_count(unfilled_rows(g)) + filled_row_count(g) * width
            == grid_occupied_count(g),
    decreases g.len(),
{
    if g.len() > 0 {
        let pre = g.drop_last();
        assert(forall|r: int| 0 <= r < pre.len() ==> (#[trigger] pre[r]).len() == width);
        assert(g.last().len() == width) by {
            assert(g[g.len() - 1].len() == width);
        }
        lemma_unfilled_rows_occupied_count(pre, width);
        if spec_row_filled(g.last()) {
            assert(unfilled_rows(g) =~= unfilled_rows(pre));
            lemma_filled_row_occupied_count(g.last());
            assert(filled_row_count(g) == filled_row_count(pre) + 1);
            assert(filled_row_count(g) * width == filled_row_count(pre) * width + width)
                by (nonlinear_arith)
                requires
                    filled_row_count(g) == filled_row_count(pre) + 1,
            ;
            assert(grid_occupied_count(unfilled_rows(g))
                == grid_occupied_count(unfilled_rows(pre)));
            assert(grid_occupied_count(g) == grid_occupied_count(pre) + width);
        } else {
            lemma_grid_occupied_count_concat(unfilled_rows(pre), seq![g.last()]);
            let s = seq![g.last()];
            assert(s.len() == 1);
            assert(s.last() == g.last());
            assert(s.drop_last() =~= Seq::<Seq<Cell>>::empty());
            assert(grid_occupied_count(s.drop_last()) == 0);
            assert(grid_occupied_count(s) == row_occupied_count(g.last()));
            assert(unfilled_rows(g) == unfilled_rows(pre) + s);
            assert(grid_occupied_count(unfilled_rows(g)) == grid_occupied_count(
                unfilled_rows(pre),
            ) + row_occupied_count(g.last()));
            assert(filled_row_count(g) == filled_row_count(pre));
            assert(filled_row_count(g) * width == filled_row_count(pre) * width);
            assert(grid_occupied_count(g) == grid_occupied_count(pre) + row_occupied_count(
                g.last(),
            ));
        }
    } else {
        assert(filled_row_count(g) == 0);
        assert(filled_row_count(g) * width == 0) by (nonlinear_arith)
            requires
                filled_row_count(g) == 0,
        ;
        assert(grid_occupied_count(unfilled_rows(g)) == 0);
    }
}

/// Decides whether every cell of a row is occupied.
pub fn row_filled(row: &Vec<Cell>) -> (b: bool)
    ensures
        b == spec_row_filled(row@),
{
    let mut c: usize = 0;
    while c < row.len()
        invariant
            c <= row@.len(),
            forall|i: int| 0 <= i < c ==> (#[trigger] row@[i]).occupied,
        decreases row@.len() - c,
    {
        if !row[c].occupied {
            return false;
        }
        c += 1;
    }
    true
}

/// One penalty row: a random piece colour in every column except a single
/// random empty one, so an injected row never completes by itself.
pub fn garbage_row(width: usize) -> (row: Vec<Cell>)
    requires
        width > 0,
    ensures
        row@.len() == width,
        spec_garbage_row(row@, width as nat),
{
    let pick = random_below(7);
    let cell = match pick {
        0 => i_cell(),
        1 => o_cell(),
        2 => t_cell(),
        3 => s_cell(),
        4 => z_cell(),
        5 => j_cell(),
        _ => l_cell(),
    };
    let mut row = vec![cell; width];
    let hole = random_below(width);
    row[hole] = empty_cell();
    proof {
        assert(garbage_row_with_hole(row@, width as nat, hole as int));
    }
    row
}

/// Builds a starting grid: empty rows above `filled` handicap rows at the
/// bottom, each handicap row fully occupied except one cell.
pub fn create_grid(width: usize, height: usize, filled: usize) -> (g: Vec<Vec<Cell>>)
    requires
        width > 0,
        filled <= height,
    ensures
        g@.len() == height,
        forall|r: int| 0 <= r < g@.len() ==> (#[trigger] g@[r])@.len() == width,
        forall|r: int|
            0 <= r < height - filled ==> (#[trigger] g@[r])@ == spec_empty_row(width as nat),
        forall|r: int|
            height - filled <= r < height ==> spec_garbage_row((#[trigger] g@[r])@, width as nat),
{
    let empty_row = vec![empty_cell(); width];
    proof {
        assert(empty_row@ =~= spec_empty_row(width as nat));
    }
    let mut grid: Vec<Vec<Cell>> = Vec::new();
    let top = height - filled;
    let mut r: usize = 0;
    while r < top
        invariant
            r <= top,
            top == height - filled,
            empty_row@ == spec_empty_row(width as nat),
            empty_row@.len() == width,
            grid@.len() == r,
            forall|i: int| 0 <= i < r ==> (#[trigger] grid@[i])@ == spec_empty_row(width as nat),
            forall|i: int| 0 <= i < r ==> (#[trigger] grid@[i])@.len() == width,
        decreases top - r,
    {
        let next = empty_row.clone();
        proof {
            assert(next@ =~= empty_row@);
        }
        grid.push(next);
        r += 1;
    }
    let mut i: usize = 0;
    while i < filled
        invariant
            i <= filled,
            width > 0,
            top == height - filled,
            grid@.len() == top + i,
            forall|j: int| 0 <= j < top ==> (#[trigger] grid@[j])@ == spec_empty_row(width as nat),
            forall|j: int|
                top <= j < top + i ==> spec_garbage_row((#[trigger] grid@[j])@, width as nat),
            forall|j: int| 0 <= j < top + i ==> (#[trigger] grid@[j])@.len() == width,
        decreases filled - i,
    {
        grid.push(garbage_row(width));
        i += 1;
    }
    grid
}

} // verus!
