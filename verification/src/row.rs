use vstd::prelude::*;

pub mod classify;
pub mod letter;

pub use letter::Letter;
pub use letter::LetterVisibility;

use crate::WORD_SIZE;
use classify::chars_of;
use classify::classify_at;
use classify::correct_upto;
use classify::count_char;
use classify::count_upto;
use classify::exact_count;
use classify::lemma_conservation;
use classify::lemma_exact_bounds;
use classify::shifted_upto;
use letter::lemma_letter_eq;
use letter::spec_vis_max;
use letter::vis_max;

verus! {

/// Models a (five-long) list of [Letter]s comprising a word that
/// the user has guessed.
#[derive(Debug, Clone)]
pub struct Row {
    letters: Vec<Letter>,
    visibility: RowVisibility,
}

/// Possible visibility states of a [Row].
#[derive(Debug, Clone, Copy, PartialEq, Eq, Structural)]
pub enum RowVisibility {
    /// Row contents are hidden.
    Hidden,
    /// Row contents are revealed.
    Revealed,
}

/// The strongest visibility that the first `n` letters show for the
/// character `c`, under the rank ordering of [LetterVisibility].
pub open spec fn spec_hint_upto(letters: Seq<Letter>, c: char, n: int) -> LetterVisibility
    decreases n,
{
    if n <= 0 {
        LetterVisibility::Hidden
    } else {
        let prev = spec_hint_upto(letters, c, n - 1);
        if letters[n - 1].spec_inner() == c {
            spec_vis_max(prev, letters[n - 1].spec_visibility())
        } else {
            prev
        }
    }
}

impl Row {
    /// The letters of this row, for use in specifications.
    pub closed spec fn spec_letters(&self) -> Seq<Letter> {
        self.letters@
    }

    /// The visibility of this row, for use in specifications.
    pub closed spec fn spec_visibility(&self) -> RowVisibility {
        self.visibility
    }

    /// A well-formed row holds exactly one letter per position of the word.
    pub open spec fn wf(&self) -> bool {
        self.spec_letters().len() == WORD_SIZE
    }

    /// Every letter of this row carries the guess's character at its
    /// position, classified against the target.
    pub open spec fn matches_guess(&self, g: Seq<char>, t: Seq<char>) -> bool {
        &&& g.len() == WORD_SIZE
        &&& t.len() == WORD_SIZE
        &&& self.wf()
        &&& forall|j: int|
            0 <= j < WORD_SIZE ==> (#[trigger] self.spec_letters()[j]).spec_inner() == g[j]
        &&& forall|j: int|
            0 <= j < WORD_SIZE ==> (#[trigger] self.spec_letters()[j]).spec_visibility()
                == classify_at(g, t, j)
    }

    /// The row shows nothing: every letter is a blank with `Hidden`
    /// visibility, so no collaborator can read the puzzle word out of a
    /// slot whose attempt has not been submitted yet.
    pub open spec fn is_blank(&self) -> bool {
        forall|j: int|
            0 <= j < self.spec_letters().len() ==> (#[trigger] self.spec_letters()[j]).spec_inner()
                == ' ' && self.spec_letters()[j].spec_visibility() == LetterVisibility::Hidden
    }

    /// Create a new Row, containing the given word. The Row may be created
    /// as hidden or revealed; its letters are all hidden, or all shown as
    /// correct, accordingly.
    pub fn new(word: &str, visibility: RowVisibility) -> (r: Self)
        requires
            word@.len() == WORD_SIZE,
        ensures
            r.wf(),
            r.spec_visibility() == visibility,
            forall|j: int|
                0 <= j < WORD_SIZE ==> (#[trigger] r.spec_letters()[j]).spec_inner() == word@[j],
            forall|j: int|
                0 <= j < WORD_SIZE ==> (#[trigger] r.spec_letters()[j]).spec_visibility() == (
                match visibility {
                    RowVisibility::Hidden => LetterVisibility::Hidden,
                    RowVisibility::Revealed => LetterVisibility::RevealedCorrect,
                }),
    {
        let letter_state = match visibility {
            RowVisibility::Hidden => LetterVisibility::Hidden,
            RowVisibility::Revealed => LetterVisibility::RevealedCorrect,
        };
        let chars = chars_of(word);
        let mut letters: Vec<Letter> = Vec::new();
        let mut i: usize = 0;
        while i < WORD_SIZE
            invariant
                i <= WORD_SIZE,
                chars@ == word@,
                word@.len() == WORD_SIZE,
                letters@.len() == i,
                forall|j: int|
                    0 <= j < i ==> (#[trigger] letters@[j]).spec_inner() == word@[j]
                        && letters@[j].spec_visibility() == letter_state,
            decreases WORD_SIZE - i,
        {
            letters.push(Letter::new(chars[i], letter_state));
            i += 1;
        }
        Row { letters, visibility }
    }

    /// Returns whether the Row's contents are hidden or revealed.
    pub fn is_visible(&self) -> (r: bool)
        ensures
            r == (self.spec_visibility() == RowVisibility::Revealed),
    {
        self.visibility == RowVisibility::Revealed
    }

    /// Create a new row, `guess`ing against the `target` word.
    ///
    /// The [Letter]s in this row are marked as being correct, shifted or
    /// incorrect, exactly as [classify_at] prescribes. The Row itself is
    /// created as revealed.
    pub fn new_guess(guess: &str, target: &str) -> (r: Self)
        requires
            guess@.len() == WORD_SIZE,
            target@.len() == WORD_SIZE,
        ensures
            r.matches_guess(guess@, target@),
            r.spec_visibility() == RowVisibility::Revealed,
    {
        let gc = chars_of(guess);
        let tc = chars_of(target);
        let mut letters: Vec<Letter> = Vec::new();
        let mut i: usize = 0;
        while i < WORD_SIZE
            invariant
                i <= WORD_SIZE,
                gc@ == guess@,
                tc@ == target@,
                guess@.len() == WORD_SIZE,
                target@.len() == WORD_SIZE,
                letters@.len() == i,
                forall|j: int|
                    0 <= j < i ==> (#[trigger] letters@[j]).spec_inner() == guess@[j]
                        && letters@[j].spec_visibility() == classify_at(guess@, target@, j),
            decreases WORD_SIZE - i,
        {
            let c = gc[i];
            let vis: LetterVisibility;
            if c == tc[i] {
                vis = LetterVisibility::RevealedCorrect;
            } else {
                let have = count_char(&tc, c, WORD_SIZE);
                let reserved = exact_count(&gc, &tc, c, WORD_SIZE);
                let seen = count_char(&gc, c, i);
                let matched = exact_count(&gc, &tc, c, i);
                proof {
                    lemma_exact_bounds(gc@, tc@, c, WORD_SIZE as int);
                    lemma_exact_bounds(gc@, tc@, c, i as int);
                }
                vis = if seen - matched < have - reserved {
                    LetterVisibility::RevealedShifted
                } else {
                    LetterVisibility::RevealedIncorrect
                };
            }
            proof {
                assert(vis == classify_at(guess@, target@, i as int));
            }
            letters.push(Letter::new(c, vis));
            i += 1;
        }
        Row { letters, visibility: RowVisibility::Revealed }
    }

    /// The letter at position `n`.
    pub fn letter(&self, n: usize) -> (r: Letter)
        requires
            self.wf(),
            n < WORD_SIZE,
        ensures
            r == self.spec_letters()[n as int],
    {
        self.letters[n]
    }

    /// The strongest visibility this row shows for the character `c`.
    pub fn hint(&self, c: char) -> (r: LetterVisibility)
        requires
            self.wf(),
        ensures
            r == spec_hint_upto(self.spec_letters(), c, WORD_SIZE as int),
    {
        let mut acc = LetterVisibility::Hidden;
        let mut j: usize = 0;
        while j < WORD_SIZE
            invariant
                j <= WORD_SIZE,
                self.wf(),
                acc == spec_hint_upto(self.spec_letters(), c, j as int),
            decreases WORD_SIZE - j,
        {
            let l = self.letter(j);
            if l.inner() == c {
                acc = vis_max(acc, l.visibility());
            }
            j += 1;
        }
        acc
    }

    /// An iterator over the letters of this row.
    pub fn iter<'a>(&'a self) -> (it: RowIterator<'a>)
        requires
            self.wf(),
        ensures
            it.letters() == self.spec_letters(),
            it.pos() == 0,
    {
        RowIterator { row: self, index: 0 }
    }
}

/// Number of letters among the first `n` that hold the character `c`
/// with visibility `v`.
pub open spec fn letters_with_upto(letters: Seq<Letter>, c: char, v: LetterVisibility, n: int) -> int
    decreases n,
{
    if n <= 0 {
        0
    } else {
        letters_with_upto(letters, c, v, n - 1) + if letters[n - 1].spec_inner() == c && letters[n
            - 1].spec_visibility() == v {
            1int
        } else {
            0int
        }
    }
}

/// In a row classified from `g` against `t`, the letters counted by
/// visibility are the positions counted by classification.
proof fn lemma_letter_counts(row: Row, g: Seq<char>, t: Seq<char>, c: char, n: int)
    requires
        row.matches_guess(g, t),
        0 <= n <= WORD_SIZE,
    ensures
        letters_with_upto(row.spec_letters(), c, LetterVisibility::RevealedCorrect, n)
            == correct_upto(g, t, c, n),
        letters_with_upto(row.spec_letters(), c, LetterVisibility::RevealedShifted, n)
            == shifted_upto(g, t, c, n),
    decreases n,
{
    if n > 0 {
        lemma_letter_counts(row, g, t, c, n - 1);
    }
}

/// Multiset conservation: in one classified row, the letters holding `c`
/// that are marked correct or shifted never outnumber the occurrences of
/// `c` in the target word.
pub proof fn lemma_row_conservation(row: Row, g: Seq<char>, t: Seq<char>, c: char)
    requires
        row.matches_guess(g, t),
    ensures
        letters_with_upto(row.spec_letters(), c, LetterVisibility::RevealedCorrect, WORD_SIZE as int)
            + letters_with_upto(
            row.spec_letters(),
            c,
            LetterVisibility::RevealedShifted,
            WORD_SIZE as int,
        ) <= count_upto(t, c, t.len() as int),
{
    lemma_letter_counts(row, g, t, c, WORD_SIZE as int);
    lemma_conservation(g, t, c);
}

/// The row is the classification of some guess against the target `t`.
pub open spec fn row_is_classified(row: Row, t: Seq<char>) -> bool {
    exists|g: Seq<char>| #[trigger] row.matches_guess(g, t)
}

/// Classifying the same guess against the same target twice yields rows
/// that agree letter for letter.
pub proof fn lemma_classification_pure(r1: Row, r2: Row, g: Seq<char>, t: Seq<char>)
    requires
        r1.matches_guess(g, t),
        r2.matches_guess(g, t),
    ensures
        r1.spec_letters() =~= r2.spec_letters(),
{
    assert forall|j: int|
        0 <= j < r1.spec_letters().len() implies r1.spec_letters()[j]
        == r2.spec_letters()[j] by {
        lemma_letter_eq(r1.spec_letters()[j], r2.spec_letters()[j]);
    }
}

/// Hands out the letters of a [Row], first to last.
pub struct RowIterator<'a> {
    row: &'a Row,
    index: usize,
}

impl<'a> RowIterator<'a> {
    /// The letters being handed out, for use in specifications.
    pub closed spec fn letters(&self) -> Seq<Letter> {
        self.row.spec_letters()
    }

    /// How many letters have been handed out, for use in specifications.
    pub closed spec fn pos(&self) -> int {
        self.index as int
    }

    /// The next letter of the row, or `None` once every letter has been
    /// handed out.
    pub fn next(&mut self) -> (r: Option<Letter>)
        requires
            old(self).letters().len() == WORD_SIZE,
        ensures
            final(self).letters() == old(self).letters(),
            if old(self).pos() < WORD_SIZE {
                r == Some(old(self).letters()[old(self).pos()])
                    && final(self).pos() == old(self).pos() + 1
            } else {
                r is None && final(self).pos() == old(self).pos()
            },
    {
        if self.index < WORD_SIZE {
            let l = self.row.letter(self.index);
            self.index += 1;
            Some(l)
        } else {
            None
        }
    }
}

} // verus!
