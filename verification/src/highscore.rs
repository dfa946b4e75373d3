//! The leaderboard port: the record type, the storage interface the game
//! consumes, the qualification rule, and the name-entry editor shown when
//! a score earns a place.
use vstd::prelude::*;

verus! {

/// Maximum length of an entered player name, in characters.
pub const MAX_NAME_LENGTH: usize = 12;

/// How many records the leaderboard keeps.
pub const HIGH_SCORE_SLOTS: usize = 5;

/// One leaderboard record.
pub struct Player {
    /// The name the player entered.
    pub name: String,
    /// The final score of that round.
    pub score: u64,
}

/// A storage failure, as free text for display.
pub struct GameError {
    /// What went wrong.
    pub message: String,
}

/// The persistence port for the leaderboard. The game decides only with
/// the values these return; an implementation over any store will do.
pub trait HighScore {
    /// Create the backing table if it does not exist yet.
    fn create_table(&self) -> Result<(), GameError>;

    /// The number of stored records.
    fn count(&self) -> Result<i64, GameError>;

    /// The record at the given rank, counted from one, best score first.
    fn get_player_at_rank(&self, rank: usize) -> Result<Player, GameError>;

    /// The best records, best first.
    fn get_top_players(&self) -> Result<Vec<Player>, GameError>;

    /// Store a new record.
    fn insert(&mut self, name: &str, score: usize) -> Result<(), GameError>;
}

/// Whether a final score earns a place on the leaderboard: it does when
/// fewer records exist than the board holds, or when it beats the score at
/// the last kept rank.
pub fn high_score_qualifies(score: usize, count: i64, last_kept_score: Option<u64>) -> (q: bool)
    ensures
        q == (count < HIGH_SCORE_SLOTS as i64 || (last_kept_score matches Some(s) && score
            as u64 > s)),
{
    if count < HIGH_SCORE_SLOTS as i64 {
        true
    } else {
        match last_kept_score {
            Some(s) => score as u64 > s,
            None => false,
        }
    }
}

/// The name-entry editor shown for a new high score: a line of characters
/// with a cursor, a length cap, insertion and deletion at the cursor, and
/// cursor movement.
pub struct NameEntry {
    /// The characters entered so far.
    pub name: Vec<char>,
    /// Cursor position, between the start and the end of the text.
    pub cursor: usize,
}

impl NameEntry {
    /// The editor is consistent: the cursor stays inside the text and the
    /// text respects the length cap.
    pub open spec fn wf(self) -> bool {
        &&& self.cursor <= self.name@.len()
        &&& self.name@.len() <= MAX_NAME_LENGTH
    }

    /// An empty line with the cursor at its start.
    pub fn new() -> (e: NameEntry)
        ensures
            e.wf(),
            e.name@ == Seq::<char>::empty(),
            e.cursor == 0,
    {
        NameEntry { name: Vec::new(), cursor: 0 }
    }

    /// Type one character: it is inserted at the cursor when the cap
    /// allows, pushing the cursor past it; otherwise it is ignored.
    pub fn insert_char(&mut self, c: char)
        requires
            old(self).wf(),
        ensures
            final(self).wf(),
            old(self).name@.len() < MAX_NAME_LENGTH ==> final(self).name@ == old(
                self,
            ).name@.insert(old(self).cursor as int, c) && final(self).cursor == old(self).cursor
                + 1,
            old(self).name@.len() >= MAX_NAME_LENGTH ==> *final(self) == *old(self),
    {
        if self.name.len() < MAX_NAME_LENGTH {
            self.name.insert(self.cursor, c);
            self.cursor = self.cursor + 1;
        }
    }

    /// Backspace: the character before the cursor disappears and the
    /// cursor follows it; at the start of the line nothing happens.
    pub fn backspace(&mut self)
        requires
            old(self).wf(),
        ensures
            final(self).wf(),
            old(self).cursor > 0 ==> final(self).name@ == old(self).name@.remove(
                old(self).cursor - 1,
            ) && final(self).cursor == old(self).cursor - 1,
            old(self).cursor == 0 ==> *final(self) == *old(self),
    {
        if !self.name.is_empty() && self.cursor > 0 {
            self.name.remove(self.cursor - 1);
            self.cursor = self.cursor - 1;
        }
    }

    /// Move the cursor one place left, stopping at the start.
    pub fn move_cursor_left(&mut self)
        requires
            old(self).wf(),
        ensures
            final(self).wf(),
            final(self).name == old(self).name,
            old(self).cursor > 0 ==> final(self).cursor == old(self).cursor - 1,
            old(self).cursor == 0 ==> final(self).cursor == 0,
    {
        if self.cursor > 0 {
            self.cursor = self.cursor - 1;
        }
    }

    /// Move the cursor one place right, stopping at the end of the text.
    pub fn move_cursor_right(&mut self)
        requires
            old(self).wf(),
        ensures
            final(self).wf(),
            final(self).name == old(self).name,
            old(self).cursor < old(self).name@.len() ==> final(self).cursor == old(self).cursor
                + 1,
            old(self).cursor >= old(self).name@.len() ==> final(self).cursor == old(self).cursor,
    {
        if self.cursor < self.name.len() {
            self.cursor = self.cursor + 1;
        }
    }
}

} // verus!
