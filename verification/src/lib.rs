//! Core engine of a falling-block puzzle game: the playfield model, piece
//! movement and rotation rules, locking and line clearing, scoring and level
//! progression, the pause/game-over control flow, and the textual peer
//! protocol used by the two-player mode.
use vstd::prelude::*;

pub mod cell;
pub mod game;
pub mod grid;
pub mod highscore;
pub mod layout;
pub mod multiplayer;
mod rng;
pub mod shapes;
pub mod tetromino;

verus! {

/// Width of the playfield, in cells.
pub const PLAY_WIDTH: usize = 10;

/// Height of the playfield, in rows.
pub const PLAY_HEIGHT: usize = 20;

/// Horizontal gap between the playfield frame and its neighbours, in columns.
pub const DISTANCE: usize = 6;

/// Width of the next-piece preview area, in cells.
pub const NEXT_WIDTH: usize = 6;

/// Height of the next-piece preview area, in rows.
pub const NEXT_HEIGHT: usize = 5;

/// Width of the statistics frame, in columns.
pub const STATS_WIDTH: usize = 18;

/// Highest level from which a further level-up is still possible.
pub const MAX_LEVEL: usize = 20;

/// Number of cleared lines per level-up step.
pub const LINES_PER_LEVEL: usize = 20;

/// Width of one cell when drawn, in terminal columns.
pub const CELL_WIDTH: usize = 3;

/// Gravity interval at level 0, in milliseconds.
pub const DEFAULT_INTERVAL: u64 = 500;

/// Highest starting handicap the command line accepts.
pub const MAX_FILLED_LINES: usize = 10;

/// The command-line surface: two-player mode with an optional peer
/// address, a starting handicap and a starting level.
pub struct Args {
    /// Whether to play against a peer.
    pub multiplayer: bool,
    /// The peer's address for a joining player; absent for the host.
    pub server_address: Option<String>,
    /// The number of lines already filled
    pub number_of_lines_already_filled: usize,
    /// Start at level
    pub level: usize,
}

impl Args {
    /// The bounds enforced before any game state is constructed: at most
    /// ten handicap lines and a starting level within the cap.
    pub open spec fn spec_valid(self) -> bool {
        &&& self.number_of_lines_already_filled <= MAX_FILLED_LINES
        &&& self.level <= MAX_LEVEL
    }

    /// Decides whether these values may start a game.
    pub fn valid(&self) -> (ok: bool)
        ensures
            ok == self.spec_valid(),
    {
        self.number_of_lines_already_filled <= MAX_FILLED_LINES && self.level <= MAX_LEVEL
    }
}

} // verus!
