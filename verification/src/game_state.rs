use vstd::pervasive::VecAdditionalExecFns;
use vstd::prelude::*;

use crate::row::classify::words_equal;
use crate::row::row_is_classified;
use crate::row::Row;
use crate::row::RowVisibility;
use crate::MAX_GUESSES;
use crate::WORD_SIZE;

verus! {

/// The terminal outcome of a game, or `InProgress` while guesses remain.
#[derive(Debug, Clone, Copy, PartialEq, Eq, Structural)]
pub enum GameResult {
    /// User has won the game.
    Win,
    /// User has lost the game.
    Loss,
    /// Game is still in progress.
    InProgress,
}

/// A word-guessing game: the puzzle word, one row slot per allowed
/// attempt, the 1-based attempt counter, and the outcome.
pub struct GameState {
    word: String,
    rows: Vec<Row>,
    cur_guess: usize,
    result: GameResult,
}

impl GameState {
    /// The puzzle word, for use in specifications.
    pub closed spec fn spec_word(&self) -> Seq<char> {
        self.word@
    }

    /// The row slots, for use in specifications.
    pub closed spec fn spec_rows(&self) -> Seq<Row> {
        self.rows@
    }

    /// The 1-based attempt counter, for use in specifications.
    pub closed spec fn spec_guess_count(&self) -> int {
        self.cur_guess as int
    }

    /// The outcome, for use in specifications.
    pub closed spec fn spec_result(&self) -> GameResult {
        self.result
    }

    /// How many leading row slots have been revealed. Every submitted
    /// attempt reveals its slot; a winning attempt does not advance the
    /// counter, so its slot is counted as well.
    pub open spec fn revealed_rows(&self) -> int {
        if self.spec_result() == GameResult::Win {
            self.spec_guess_count()
        } else {
            self.spec_guess_count() - 1
        }
    }

    /// Well-formedness: the word has its fixed length, there is one slot
    /// per allowed attempt, the counter stays within bounds and agrees
    /// with the outcome, every revealed slot is the classification of some
    /// guess against the puzzle word, and every slot not yet submitted is
    /// blank and hidden, so it gives the puzzle word away to nobody.
    pub open spec fn wf(&self) -> bool {
        &&& self.spec_word().len() == WORD_SIZE
        &&& self.spec_rows().len() == MAX_GUESSES
        &&& 1 <= self.spec_guess_count() <= MAX_GUESSES + 1
        &&& (self.spec_result() == GameResult::InProgress ==> self.spec_guess_count()
            <= MAX_GUESSES)
        &&& (self.spec_result() == GameResult::Win ==> self.spec_guess_count() <= MAX_GUESSES)
        &&& (self.spec_result() == GameResult::Loss ==> self.spec_guess_count() == MAX_GUESSES
            + 1)
        &&& (forall|i: int| 0 <= i < MAX_GUESSES ==> (#[trigger] self.spec_rows()[i]).wf())
        &&& (forall|i: int|
            0 <= i < self.revealed_rows() ==> (#[trigger] self.spec_rows()[i]).spec_visibility()
                == RowVisibility::Revealed)
        &&& (forall|i: int|
            0 <= i < self.revealed_rows() ==> #[trigger] row_is_classified(
                self.spec_rows()[i],
                self.spec_word(),
            ))
        &&& (forall|i: int|
            self.revealed_rows() <= i < MAX_GUESSES ==> (#[trigger] self.spec_rows()[
            i]).spec_visibility() == RowVisibility::Hidden)
        &&& (forall|i: int|
            self.revealed_rows() <= i < MAX_GUESSES ==> (#[trigger] self.spec_rows()[
            i]).is_blank())
    }

    /// Create a new game, with the given puzzle word. The game starts in
    /// progress, at attempt 1, with every slot blank and hidden.
    pub fn new(word: String) -> (r: Self)
        requires
            word@.len() == WORD_SIZE,
        ensures
            r.wf(),
            r.spec_word() == word@,
            r.spec_result() == GameResult::InProgress,
            r.spec_guess_count() == 1,
    {
        let blank = "     ";
        proof {
            reveal_strlit("     ");
        }
        let mut rows: Vec<Row> = Vec::new();
        let mut k: usize = 0;
        while k < MAX_GUESSES
            invariant
                k <= MAX_GUESSES,
                blank@.len() == WORD_SIZE,
                forall|j: int| 0 <= j < WORD_SIZE ==> blank@[j] == ' ',
                rows@.len() == k,
                forall|i: int|
                    0 <= i < k ==> (#[trigger] rows@[i]).wf() && rows@[i].spec_visibility()
                        == RowVisibility::Hidden && rows@[i].is_blank(),
            decreases MAX_GUESSES - k,
        {
            rows.push(Row::new(blank, RowVisibility::Hidden));
            k += 1;
        }
        GameState { rows, word, cur_guess: 1, result: GameResult::InProgress }
    }

    /// Returns the current attempt number.
    pub fn guess_count(&self) -> (r: usize)
        ensures
            r == self.spec_guess_count(),
    {
        self.cur_guess
    }

    /// Returns the [GameResult] of the game.
    pub fn result(&self) -> (r: GameResult)
        ensures
            r == self.spec_result(),
    {
        self.result
    }

    /// Make a guess against the puzzle word.
    ///
    /// The slot of the current attempt receives the classified row. A
    /// guess equal to the puzzle word wins; otherwise the attempt counter
    /// advances, and the game is lost the moment it passes the last
    /// allowed attempt — never earlier, never later.
    pub fn make_guess(&mut self, word: &str)
        requires
            old(self).wf(),
            old(self).spec_result() == GameResult::InProgress,
            word@.len() == WORD_SIZE,
        ensures
            final(self).wf(),
            final(self).spec_word() == old(self).spec_word(),
            forall|i: int|
                0 <= i < MAX_GUESSES && i != old(self).spec_guess_count() - 1 ==> (
                #[trigger] final(self).spec_rows()[i]) == old(self).spec_rows()[i],
            final(self).spec_rows()[old(self).spec_guess_count() - 1].matches_guess(
                word@,
                old(self).spec_word(),
            ),
            final(self).spec_rows()[old(self).spec_guess_count() - 1].spec_visibility()
                == RowVisibility::Revealed,
            (word@ == old(self).spec_word() ==> final(self).spec_result() == GameResult::Win
                && final(self).spec_guess_count() == old(self).spec_guess_count()),
            (word@ != old(self).spec_word() && old(self).spec_guess_count() == MAX_GUESSES ==>
                final(self).spec_result() == GameResult::Loss && final(self).spec_guess_count()
                == MAX_GUESSES + 1),
            (word@ != old(self).spec_word() && old(self).spec_guess_count() < MAX_GUESSES ==>
                final(self).spec_result() == GameResult::InProgress
                && final(self).spec_guess_count() == old(self).spec_guess_count() + 1),
    {
        let row = Row::new_guess(word, self.word.as_str());
        let idx = self.cur_guess - 1;
        self.rows.set(idx, row);

        if words_equal(word, self.word.as_str()) {
            self.result = GameResult::Win;
            proof {
                self.lemma_guess_keeps_witnesses(*old(self), idx as int, word@);
            }
            return;
        }

        self.cur_guess += 1;

        if self.cur_guess > MAX_GUESSES {
            self.result = GameResult::Loss;
        }
        proof {
            self.lemma_guess_keeps_witnesses(*old(self), idx as int, word@);
        }
    }

    /// After the slot `idx` has been filled with the classification of
    /// `guess`, every revealed slot is still the classification of some
    /// guess against the puzzle word.
    proof fn lemma_guess_keeps_witnesses(self, prev: Self, idx: int, guess: Seq<char>)
        requires
            prev.wf(),
            self.spec_word() == prev.spec_word(),
            self.spec_rows().len() == MAX_GUESSES,
            0 <= idx < MAX_GUESSES,
            forall|i: int|
                0 <= i < MAX_GUESSES && i != idx ==> (#[trigger] self.spec_rows()[i])
                    == prev.spec_rows()[i],
            self.spec_rows()[idx].matches_guess(guess, self.spec_word()),
            self.revealed_rows() <= idx + 1,
            idx <= prev.revealed_rows(),
        ensures
            forall|i: int|
                0 <= i < self.revealed_rows() ==> #[trigger] row_is_classified(
                    self.spec_rows()[i],
                    self.spec_word(),
                ),
    {
        assert forall|i: int| 0 <= i < self.revealed_rows() implies #[trigger] row_is_classified(
            self.spec_rows()[i],
            self.spec_word(),
        ) by {
            if i == idx {
                assert(self.spec_rows()[i].matches_guess(guess, self.spec_word()));
            } else {
                assert(0 <= i < prev.revealed_rows());
                assert(row_is_classified(prev.spec_rows()[i], prev.spec_word()));
                let g = choose|g: Seq<char>|
                    #[trigger] prev.spec_rows()[i].matches_guess(g, prev.spec_word());
                assert(self.spec_rows()[i].matches_guess(g, self.spec_word()));
            }
        }
    }

    /// Returns the [Row] at index `n`.
    pub fn row(&self, n: usize) -> (r: &Row)
        requires
            self.wf(),
            n < MAX_GUESSES,
        ensures
            *r == self.spec_rows()[n as int],
    {
        &self.rows[n]
    }
}

} // verus!
