use vstd::prelude::*;

pub mod game_state;
pub mod row;
pub mod wurds_game;

verus! {

/// The maximum number of guesses afforded to the user.
pub const MAX_GUESSES: usize = 6;

/// Number of letters in the puzzle word (exact, not maximum).
pub const WORD_SIZE: usize = 5;

} // verus!
