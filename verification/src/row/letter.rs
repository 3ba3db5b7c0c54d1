use vstd::prelude::*;

verus! {

/// A single letter in a guessed word.
///
/// In addition to containing a character, a Letter also
/// carries its own [LetterVisibility].
#[derive(Debug, Clone, Copy)]
pub struct Letter {
    visibility: LetterVisibility,
    inner: char,
}

/// Represents the various states that a Letter can be in.
///
/// The variants are ordered: `Hidden < RevealedIncorrect < RevealedShifted
/// < RevealedCorrect`. The keyboard-hint view keeps, per character, the
/// maximum visibility seen so far under this ordering.
#[derive(Debug, Clone, Copy, PartialEq, Eq, PartialOrd, Ord, Structural)]
pub enum LetterVisibility {
    /// The letter is hidden entirely.
    Hidden,
    /// The letter is revealed, but it is not present in the puzzle word.
    RevealedIncorrect,
    /// The letter is revealed, but it is present in the incorrect location.
    RevealedShifted,
    /// The letter is revealed, and it is present in the correct location.
    RevealedCorrect,
}

/// The rank of a visibility under the ordering
/// `Hidden < RevealedIncorrect < RevealedShifted < RevealedCorrect`.
pub open spec fn spec_vis_rank(v: LetterVisibility) -> int {
    match v {
        LetterVisibility::Hidden => 0,
        LetterVisibility::RevealedIncorrect => 1,
        LetterVisibility::RevealedShifted => 2,
        LetterVisibility::RevealedCorrect => 3,
    }
}

/// The larger of two visibilities under the rank ordering.
pub open spec fn spec_vis_max(a: LetterVisibility, b: LetterVisibility) -> LetterVisibility {
    if spec_vis_rank(a) >= spec_vis_rank(b) {
        a
    } else {
        b
    }
}

/// Rank of a visibility, as executable code.
pub fn vis_rank(v: LetterVisibility) -> (r: u32)
    ensures
        r == spec_vis_rank(v),
{
    match v {
        LetterVisibility::Hidden => 0,
        LetterVisibility::RevealedIncorrect => 1,
        LetterVisibility::RevealedShifted => 2,
        LetterVisibility::RevealedCorrect => 3,
    }
}

/// The larger of two visibilities, as executable code.
pub fn vis_max(a: LetterVisibility, b: LetterVisibility) -> (r: LetterVisibility)
    ensures
        r == spec_vis_max(a, b),
{
    if vis_rank(a) >= vis_rank(b) {
        a
    } else {
        b
    }
}

impl Letter {
    /// The visibility of this letter, for use in specifications.
    pub closed spec fn spec_visibility(&self) -> LetterVisibility {
        self.visibility
    }

    /// The wrapped character, for use in specifications.
    pub closed spec fn spec_inner(&self) -> char {
        self.inner
    }

    /// Create a new Letter with the specified visibility.
    pub fn new(c: char, visibility: LetterVisibility) -> (r: Self)
        ensures
            r.spec_inner() == c,
            r.spec_visibility() == visibility,
    {
        Letter { visibility, inner: c }
    }

    /// Returns the visibility of the Letter.
    pub fn visibility(&self) -> (r: LetterVisibility)
        ensures
            r == self.spec_visibility(),
    {
        self.visibility
    }

    /// Returns the wrapped raw character.
    pub fn inner(&self) -> (r: char)
        ensures
            r == self.spec_inner(),
    {
        self.inner
    }
}

/// Letters agreeing on character and visibility are the same letter.
pub proof fn lemma_letter_eq(a: Letter, b: Letter)
    requires
        a.spec_inner() == b.spec_inner(),
        a.spec_visibility() == b.spec_visibility(),
    ensures
        a == b,
{
}

} // verus!
