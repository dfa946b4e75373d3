//! The cell model: a playfield square is either empty or occupied, and
//! carries a display colour that the game logic itself never reads.
use vstd::prelude::*;

verus! {

/// Display colour of a cell. Game logic compares cells by occupancy only;
/// the colour is carried through for the presentation layer.
#[derive(Clone, Copy, Debug, PartialEq, Eq, Structural)]
pub enum CellColor {
    /// The terminal's default colour, used for empty cells.
    Reset,
    /// Colour of the I piece.
    Cyan,
    /// Colour of the O piece.
    Yellow,
    /// Colour of the T piece.
    Purple,
    /// Colour of the S piece.
    Green,
    /// Colour of the Z piece.
    Red,
    /// Colour of the J piece.
    Blue,
    /// Colour of the L piece.
    Orange,
}

/// One square of the playfield or of a piece's state grid.
#[derive(Clone, Copy, Debug, PartialEq, Eq, Structural)]
pub struct Cell {
    /// Whether the square is occupied by a block.
    pub occupied: bool,
    /// Display colour of the block, `Reset` for empty squares.
    pub color: CellColor,
}

/// The empty cell, as a specification value.
pub open spec fn spec_empty_cell() -> Cell {
    Cell { occupied: false, color: CellColor::Reset }
}

/// The block cell of the I piece, as a specification value.
pub open spec fn spec_i_cell() -> Cell {
    Cell { occupied: true, color: CellColor::Cyan }
}

/// The block cell of the O piece, as a specification value.
pub open spec fn spec_o_cell() -> Cell {
    Cell { occupied: true, color: CellColor::Yellow }
}

/// The block cell of the T piece, as a specification value.
pub open spec fn spec_t_cell() -> Cell {
    Cell { occupied: true, color: CellColor::Purple }
}

/// The block cell of the S piece, as a specification value.
pub open spec fn spec_s_cell() -> Cell {
    Cell { occupied: true, color: CellColor::Green }
}

/// The block cell of the Z piece, as a specification value.
pub open spec fn spec_z_cell() -> Cell {
    Cell { occupied: true, color: CellColor::Red }
}

/// The block cell of the J piece, as a specification value.
pub open spec fn spec_j_cell() -> Cell {
    Cell { occupied: true, color: CellColor::Blue }
}

/// The block cell of the L piece, as a specification value.
pub open spec fn spec_l_cell() -> Cell {
    Cell { occupied: true, color: CellColor::Orange }
}

/// The empty cell.
pub fn empty_cell() -> (c: Cell)
    ensures
        c == spec_empty_cell(),
{
    Cell { occupied: false, color: CellColor::Reset }
}

/// The block cell of the I piece.
pub fn i_cell() -> (c: Cell)
    ensures
        c == spec_i_cell(),
{
    Cell { occupied: true, color: CellColor::Cyan }
}

/// The block cell of the O piece.
pub fn o_cell() -> (c: Cell)
    ensures
        c == spec_o_cell(),
{
    Cell { occupied: true, color: CellColor::Yellow }
}

/// The block cell of the T piece.
pub fn t_cell() -> (c: Cell)
    ensures
        c == spec_t_cell(),
{
    Cell { occupied: true, color: CellColor::Purple }
}

/// The block cell of the S piece.
pub fn s_cell() -> (c: Cell)
    ensures
        c == spec_s_cell(),
{
    Cell { occupied: true, color: CellColor::Green }
}

/// The block cell of the Z piece.
pub fn z_cell() -> (c: Cell)
    ensures
        c == spec_z_cell(),
{
    Cell { occupied: true, color: CellColor::Red }
}

/// The block cell of the J piece.
pub fn j_cell() -> (c: Cell)
    ensures
        c == spec_j_cell(),
{
    Cell { occupied: true, color: CellColor::Blue }
}

/// The block cell of the L piece.
pub fn l_cell() -> (c: Cell)
    ensures
        c == spec_l_cell(),
{
    Cell { occupied: true, color: CellColor::Orange }
}

} // verus!
