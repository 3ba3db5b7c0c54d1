use vstd::pervasive::VecAdditionalExecFns;
use vstd::prelude::*;

use crate::row::classify::words_equal;
use crate::row::letter::spec_vis_max;
use crate::row::letter::vis_max;
use crate::row::row_is_classified;
use crate::row::spec_hint_upto;
use crate::row::LetterVisibility;
use crate::row::Row;
use crate::row::RowVisibility;
use crate::MAX_GUESSES;
use crate::WORD_SIZE;

verus! {

/// Possible states that the game can be in.
#[derive(Debug, Clone, Copy, PartialEq, Eq, Structural)]
pub enum GameState {
    /// User has won the game.
    Win,
    /// User has lost the game.
    Loss,
    /// Game is still in progress.
    InProgress,
}

/// Models a `Wurds` game: the puzzle word, one row slot per allowed
/// attempt, the 1-based attempt counter, and the state of play.
pub struct WurdsGame {
    word: String,
    rows: Vec<Row>,
    cur_guess: usize,
    state: GameState,
}

/// The strongest visibility shown for the character `c` across the first
/// `n` rows, counting the letters of revealed rows only.
pub open spec fn spec_hint_rows(rows: Seq<Row>, c: char, n: int) -> LetterVisibility
    decreases n,
{
    if n <= 0 {
        LetterVisibility::Hidden
    } else {
        let prev = spec_hint_rows(rows, c, n - 1);
        if rows[n - 1].spec_visibility() == RowVisibility::Revealed {
            spec_vis_max(
                prev,
                spec_hint_upto(rows[n - 1].spec_letters(), c, rows[n - 1].spec_letters().len() as int),
            )
        } else {
            prev
        }
    }
}

/// One submission of a valid but non-matching guess `g`, exactly as the
/// contract of [WurdsGame::make_guess] describes it: the game was in
/// progress, the counter advances by one, and the game is lost just when
/// the counter was already at its last allowed attempt.
pub open spec fn spec_missed_guess(pre: WurdsGame, post: WurdsGame, g: Seq<char>) -> bool {
    &&& pre.wf()
    &&& pre.spec_state() == GameState::InProgress
    &&& g.len() == WORD_SIZE
    &&& g != pre.spec_word()
    &&& post.wf()
    &&& post.spec_word() == pre.spec_word()
    &&& post.spec_guess_count() == pre.spec_guess_count() + 1
    &&& post.spec_state() == (if pre.spec_guess_count() == MAX_GUESSES {
        GameState::Loss
    } else {
        GameState::InProgress
    })
}

/// Exhaustion: starting from a fresh game, consecutive non-matching valid
/// guesses leave the game in progress until the last allowed attempt, and
/// the `MAX_GUESSES`-th such submission — never an earlier one — loses the
/// game. `states` are the games seen along the way, `states[i]` before the
/// submission of `guesses[i]`.
pub proof fn lemma_exhaustion(states: Seq<WurdsGame>, guesses: Seq<Seq<char>>)
    requires
        states.len() == guesses.len() + 1,
        guesses.len() <= MAX_GUESSES,
        states[0].spec_guess_count() == 1,
        states[0].spec_state() == GameState::InProgress,
        forall|i: int|
            0 <= i < guesses.len() ==> #[trigger] spec_missed_guess(
                states[i],
                states[i + 1],
                guesses[i],
            ),
    ensures
        states.last().spec_guess_count() == guesses.len() + 1,
        states.last().spec_state() == (if guesses.len() == MAX_GUESSES {
            GameState::Loss
        } else {
            GameState::InProgress
        }),
    decreases guesses.len(),
{
    if guesses.len() > 0 {
        lemma_exhaustion(states.drop_last(), guesses.drop_last());
        assert(spec_missed_guess(
            states[states.len() - 2],
            states[states.len() - 1],
            guesses[guesses.len() - 1],
        ));
    }
}

impl WurdsGame {
    /// The puzzle word, for use in specifications.
    pub closed spec fn spec_word(&self) -> Seq<char> {
        self.word@
    }

    /// The row slots, for use in specifications.
    pub closed spec fn spec_rows(&self) -> Seq<Row> {
        self.rows@
    }

    /// The 1-based attempt counter, for use in specifications.
    pub closed spec fn spec_guess_count(&self) -> int {
        self.cur_guess as int
    }

    /// The state of play, for use in specifications.
    pub closed spec fn spec_state(&self) -> GameState {
        self.state
    }

    /// How many leading row slots have been revealed. Every submitted
    /// attempt reveals its slot; a winning attempt does not advance the
    /// counter, so its slot is counted as well.
    pub open spec fn revealed_rows(&self) -> int {
        if self.spec_state() == GameState::Win {
            self.spec_guess_count()
        } else {
            self.spec_guess_count() - 1
        }
    }

    /// Well-formedness: the word has its fixed length, there is one slot
    /// per allowed attempt, the counter stays within bounds and agrees
    /// with the state, every revealed slot is the classification of some
    /// guess against the puzzle word, and every slot not yet submitted is
    /// blank and hidden, so it gives the puzzle word away to nobody.
    pub open spec fn wf(&self) -> bool {
        &&& self.spec_word().len() == WORD_SIZE
        &&& self.spec_rows().len() == MAX_GUESSES
        &&& 1 <= self.spec_guess_count() <= MAX_GUESSES + 1
        &&& (self.spec_state() == GameState::InProgress ==> self.spec_guess_count() <= MAX_GUESSES)
        &&& (self.spec_state() == GameState::Win ==> self.spec_guess_count() <= MAX_GUESSES)
        &&& (self.spec_state() == GameState::Loss ==> self.spec_guess_count() == MAX_GUESSES + 1)
        &&& (forall|i: int| 0 <= i < MAX_GUESSES ==> (#[trigger] self.spec_rows()[i]).wf())
        &&& (forall|i: int|
            0 <= i < self.revealed_rows() ==> (#[trigger] self.spec_rows()[i]).spec_visibility()
                == RowVisibility::Revealed)
        &&& (forall|i: int|
            0 <= i < self.revealed_rows() ==> #[trigger] row_is_classified(
                self.spec_rows()[i],
                self.spec_word(),
            ))
        &&& (forall|i: int|
            self.revealed_rows() <= i < MAX_GUESSES ==> (#[trigger] self.spec_rows()[
            i]).spec_visibility() == RowVisibility::Hidden)
        &&& (forall|i: int|
            self.revealed_rows() <= i < MAX_GUESSES ==> (#[trigger] self.spec_rows()[
            i]).is_blank())
    }

    /// Create a new game, with the given puzzle word. The game starts in
    /// progress, at attempt 1, with every slot blank and hidden.
    pub fn new(word: String) -> (r: Self)
        requires
            word@.len() == WORD_SIZE,
        ensures
            r.wf(),
            r.spec_word() == word@,
            r.spec_state() == GameState::InProgress,
            r.spec_guess_count() == 1,
    {
        let blank = "     ";
        proof {
            reveal_strlit("     ");
        }
        let mut rows: Vec<Row> = Vec::new();
        let mut k: usize = 0;
        while k < MAX_GUESSES
            invariant
                k <= MAX_GUESSES,
                blank@.len() == WORD_SIZE,
                forall|j: int| 0 <= j < WORD_SIZE ==> blank@[j] == ' ',
                rows@.len() == k,
                forall|i: int|
                    0 <= i < k ==> (#[trigger] rows@[i]).wf() && rows@[i].spec_visibility()
                        == RowVisibility::Hidden && rows@[i].is_blank(),
            decreases MAX_GUESSES - k,
        {
            rows.push(Row::new(blank, RowVisibility::Hidden));
            k += 1;
        }
        WurdsGame { rows, word, cur_guess: 1, state: GameState::InProgress }
    }

    /// Returns the current attempt number.
    pub fn guess_count(&self) -> (r: usize)
        ensures
            r == self.spec_guess_count(),
    {
        self.cur_guess
    }

    /// Returns the [GameState] of the game.
    pub fn state(&self) -> (r: GameState)
        ensures
            r == self.spec_state(),
    {
        self.state
    }

    /// Make a guess against the puzzle word.
    ///
    /// The slot of the current attempt receives the classified row. A
    /// guess equal to the puzzle word wins; otherwise the attempt counter
    /// advances, and the game is lost the moment it passes the last
    /// allowed attempt — never earlier, never later.
    pub fn make_guess(&mut self, word: &str)
        requires
            old(self).wf(),
            old(self).spec_state() == GameState::InProgress,
            word@.len() == WORD_SIZE,
        ensures
            final(self).wf(),
            final(self).spec_word() == old(self).spec_word(),
            forall|i: int|
                0 <= i < MAX_GUESSES && i != old(self).spec_guess_count() - 1 ==> (
                #[trigger] final(self).spec_rows()[i]) == old(self).spec_rows()[i],
            final(self).spec_rows()[old(self).spec_guess_count() - 1].matches_guess(
                word@,
                old(self).spec_word(),
            ),
            final(self).spec_rows()[old(self).spec_guess_count() - 1].spec_visibility()
                == RowVisibility::Revealed,
            (word@ == old(self).spec_word() ==> final(self).spec_state() == GameState::Win
                && final(self).spec_guess_count() == old(self).spec_guess_count()),
            (word@ != old(self).spec_word() && old(self).spec_guess_count() == MAX_GUESSES ==>
                final(self).spec_state() == GameState::Loss && final(self).spec_guess_count()
                == MAX_GUESSES + 1),
            (word@ != old(self).spec_word() && old(self).spec_guess_count() < MAX_GUESSES ==>
                final(self).spec_state() == GameState::InProgress
                && final(self).spec_guess_count() == old(self).spec_guess_count() + 1),
    {
        let row = Row::new_guess(word, self.word.as_str());
        let idx = self.cur_guess - 1;
        self.rows.set(idx, row);

        if words_equal(word, self.word.as_str()) {
            self.state = GameState::Win;
            proof {
                self.lemma_guess_keeps_witnesses(*old(self), idx as int, word@);
            }
            return;
        }

        self.cur_guess += 1;

        if self.cur_guess > MAX_GUESSES {
            self.state = GameState::Loss;
        }
        proof {
            self.lemma_guess_keeps_witnesses(*old(self), idx as int, word@);
        }
    }

    /// After the slot `idx` has been filled with the classification of
    /// `guess`, every revealed slot is still the classification of some
    /// guess against the puzzle word.
    proof fn lemma_guess_keeps_witnesses(self, prev: Self, idx: int, guess: Seq<char>)
        requires
            prev.wf(),
            self.spec_word() == prev.spec_word(),
            self.spec_rows().len() == MAX_GUESSES,
            0 <= idx < MAX_GUESSES,
            forall|i: int|
                0 <= i < MAX_GUESSES && i != idx ==> (#[trigger] self.spec_rows()[i])
                    == prev.spec_rows()[i],
            self.spec_rows()[idx].matches_guess(guess, self.spec_word()),
            self.revealed_rows() <= idx + 1,
            idx <= prev.revealed_rows(),
        ensures
            forall|i: int|
                0 <= i < self.revealed_rows() ==> #[trigger] row_is_classified(
                    self.spec_rows()[i],
                    self.spec_word(),
                ),
    {
        assert forall|i: int| 0 <= i < self.revealed_rows() implies #[trigger] row_is_classified(
            self.spec_rows()[i],
            self.spec_word(),
        ) by {
            if i == idx {
                assert(self.spec_rows()[i].matches_guess(guess, self.spec_word()));
            } else {
                assert(0 <= i < prev.revealed_rows());
                assert(row_is_classified(prev.spec_rows()[i], prev.spec_word()));
                let g = choose|g: Seq<char>|
                    #[trigger] prev.spec_rows()[i].matches_guess(g, prev.spec_word());
                assert(self.spec_rows()[i].matches_guess(g, self.spec_word()));
            }
        }
    }

    /// Returns the [Row] at index `n`.
    pub fn row(&self, n: usize) -> (r: &Row)
        requires
            self.wf(),
            n < MAX_GUESSES,
        ensures
            *r == self.spec_rows()[n as int],
    {
        &self.rows[n]
    }

    /// Returns every row slot, first attempt first.
    pub fn rows(&self) -> (r: &Vec<Row>)
        ensures
            r@ == self.spec_rows(),
    {
        &self.rows
    }

    /// The keyboard-hint view: the strongest visibility the revealed rows
    /// show for the character `c`. Derived on demand; never part of the
    /// game's own state.
    pub fn letter_hint(&self, c: char) -> (r: LetterVisibility)
        requires
            self.wf(),
        ensures
            r == spec_hint_rows(self.spec_rows(), c, MAX_GUESSES as int),
    {
        let mut acc = LetterVisibility::Hidden;
        let mut i: usize = 0;
        while i < MAX_GUESSES
            invariant
                i <= MAX_GUESSES,
                self.wf(),
                acc == spec_hint_rows(self.spec_rows(), c, i as int),
            decreases MAX_GUESSES - i,
        {
            let row = self.row(i);
            if row.is_visible() {
                acc = vis_max(acc, row.hint(c));
            }
            i += 1;
        }
        acc
    }
}

} // verus!
