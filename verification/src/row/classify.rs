use vstd::prelude::*;

use crate::row::letter::LetterVisibility;

verus! {

/// Number of occurrences of `c` among the first `n` characters of `s`.
pub open spec fn count_upto(s: Seq<char>, c: char, n: int) -> int
    decreases n,
{
    if n <= 0 {
        0
    } else {
        count_upto(s, c, n - 1) + if s[n - 1] == c {
            1int
        } else {
            0int
        }
    }
}

/// Number of positions below `n` where guess and target both hold `c`,
/// that is, where `c` is guessed in exactly the right place.
pub open spec fn exact_upto(g: Seq<char>, t: Seq<char>, c: char, n: int) -> int
    decreases n,
{
    if n <= 0 {
        0
    } else {
        exact_upto(g, t, c, n - 1) + if g[n - 1] == c && t[n - 1] == c {
            1int
        } else {
            0int
        }
    }
}

/// How many occurrences of `c` remain available for `RevealedShifted`
/// classification once every exact match has been reserved.
pub open spec fn shift_budget(g: Seq<char>, t: Seq<char>, c: char) -> int {
    count_upto(t, c, t.len() as int) - exact_upto(g, t, c, t.len() as int)
}

/// Number of positions below `n` where the guess holds `c` but the target
/// does not hold `c` at that same position.
pub open spec fn misplaced_upto(g: Seq<char>, t: Seq<char>, c: char, n: int) -> int {
    count_upto(g, c, n) - exact_upto(g, t, c, n)
}

/// The classification of position `i` of `g` against `t`.
///
/// A position matching the target exactly is `RevealedCorrect`. Any other
/// position is `RevealedShifted` when, scanning left to right, the earlier
/// misplaced occurrences of its character have not yet consumed the whole
/// shift budget of that character; otherwise it is `RevealedIncorrect`.
/// Reserving every exact match before handing out shifts is what keeps a
/// repeated letter from being reported more often than the target holds it.
pub open spec fn classify_at(g: Seq<char>, t: Seq<char>, i: int) -> LetterVisibility {
    if g[i] == t[i] {
        LetterVisibility::RevealedCorrect
    } else if misplaced_upto(g, t, g[i], i) < shift_budget(g, t, g[i]) {
        LetterVisibility::RevealedShifted
    } else {
        LetterVisibility::RevealedIncorrect
    }
}

/// The counts are non-negative, and exact matches of `c` are no more
/// frequent than `c` itself, in the guess as well as in the target.
pub proof fn lemma_exact_bounds(g: Seq<char>, t: Seq<char>, c: char, n: int)
    ensures
        0 <= exact_upto(g, t, c, n),
        exact_upto(g, t, c, n) <= count_upto(g, c, n),
        exact_upto(g, t, c, n) <= count_upto(t, c, n),
    decreases n,
{
    if n > 0 {
        lemma_exact_bounds(g, t, c, n - 1);
    }
}

/// A character absent from `s` is counted zero times.
pub proof fn lemma_count_absent(s: Seq<char>, c: char, n: int)
    requires
        n <= s.len(),
        forall|j: int| 0 <= j < s.len() ==> s[j] != c,
    ensures
        count_upto(s, c, n) == 0,
    decreases n,
{
    if n > 0 {
        lemma_count_absent(s, c, n - 1);
    }
}

/// Number of positions below `n` holding `c` that classify
/// `RevealedCorrect`.
pub open spec fn correct_upto(g: Seq<char>, t: Seq<char>, c: char, n: int) -> int
    decreases n,
{
    if n <= 0 {
        0
    } else {
        correct_upto(g, t, c, n - 1) + if g[n - 1] == c && classify_at(g, t, n - 1)
            == LetterVisibility::RevealedCorrect {
            1int
        } else {
            0int
        }
    }
}

/// Number of positions below `n` holding `c` that classify
/// `RevealedShifted`.
pub open spec fn shifted_upto(g: Seq<char>, t: Seq<char>, c: char, n: int) -> int
    decreases n,
{
    if n <= 0 {
        0
    } else {
        shifted_upto(g, t, c, n - 1) + if g[n - 1] == c && classify_at(g, t, n - 1)
            == LetterVisibility::RevealedShifted {
            1int
        } else {
            0int
        }
    }
}

/// A position classifies `RevealedCorrect` exactly when guess and target
/// agree there, so the correct positions holding `c` are the exact
/// matches of `c`.
pub proof fn lemma_correct_is_exact(g: Seq<char>, t: Seq<char>, c: char, n: int)
    ensures
        correct_upto(g, t, c, n) == exact_upto(g, t, c, n),
    decreases n,
{
    if n > 0 {
        lemma_correct_is_exact(g, t, c, n - 1);
    }
}

/// Scanning left to right, the shifted positions holding `c` are the
/// misplaced ones up to the point where the shift budget of `c` runs out.
pub proof fn lemma_shifted_is_capped(g: Seq<char>, t: Seq<char>, c: char, n: int)
    requires
        0 <= n <= g.len(),
        g.len() == t.len(),
    ensures
        shifted_upto(g, t, c, n) == if misplaced_upto(g, t, c, n) <= shift_budget(g, t, c) {
            misplaced_upto(g, t, c, n)
        } else {
            shift_budget(g, t, c)
        },
        0 <= shifted_upto(g, t, c, n),
    decreases n,
{
    lemma_exact_bounds(g, t, c, t.len() as int);
    lemma_exact_bounds(g, t, c, n);
    if n > 0 {
        lemma_shifted_is_capped(g, t, c, n - 1);
        lemma_exact_bounds(g, t, c, n - 1);
    }
}

/// Multiset conservation: within one classified row, the positions of `c`
/// marked correct or shifted never outnumber the occurrences of `c` in
/// the target word.
pub proof fn lemma_conservation(g: Seq<char>, t: Seq<char>, c: char)
    requires
        g.len() == t.len(),
    ensures
        correct_upto(g, t, c, g.len() as int) + shifted_upto(g, t, c, g.len() as int)
            <= count_upto(t, c, t.len() as int),
{
    lemma_correct_is_exact(g, t, c, g.len() as int);
    lemma_shifted_is_capped(g, t, c, g.len() as int);
    lemma_exact_bounds(g, t, c, t.len() as int);
}

/// Every position classifies `RevealedCorrect` exactly when the guess is
/// the target itself.
pub proof fn lemma_all_correct_iff_eq(g: Seq<char>, t: Seq<char>)
    requires
        g.len() == t.len(),
    ensures
        (forall|i: int|
            0 <= i < g.len() ==> classify_at(g, t, i) == LetterVisibility::RevealedCorrect)
            <==> g =~= t,
{
    if forall|i: int|
        0 <= i < g.len() ==> classify_at(g, t, i) == LetterVisibility::RevealedCorrect {
        assert forall|i: int| 0 <= i < g.len() implies g[i] == t[i] by {
            assert(classify_at(g, t, i) == LetterVisibility::RevealedCorrect);
        }
    }
    if g =~= t {
        assert forall|i: int| 0 <= i < g.len() implies classify_at(g, t, i)
            == LetterVisibility::RevealedCorrect by {
            assert(g[i] == t[i]);
        }
    }
}

/// A guess sharing no characters with the target classifies
/// `RevealedIncorrect` at every position.
pub proof fn lemma_disjoint_all_incorrect(g: Seq<char>, t: Seq<char>)
    requires
        g.len() == t.len(),
        forall|i: int, j: int| 0 <= i < g.len() && 0 <= j < t.len() ==> g[i] != t[j],
    ensures
        forall|i: int|
            0 <= i < g.len() ==> classify_at(g, t, i) == LetterVisibility::RevealedIncorrect,
{
    assert forall|i: int| 0 <= i < g.len() implies classify_at(g, t, i)
        == LetterVisibility::RevealedIncorrect by {
        assert(g[i] != t[i]);
        assert(forall|j: int| 0 <= j < t.len() ==> t[j] != g[i]);
        lemma_count_absent(t, g[i], t.len() as int);
        lemma_exact_bounds(g, t, g[i], t.len() as int);
        lemma_exact_bounds(g, t, g[i], i);
    }
}

/// Count occurrences of `c` among the first `n` entries of `v`.
pub fn count_char(v: &Vec<char>, c: char, n: usize) -> (r: usize)
    requires
        n <= v@.len(),
    ensures
        r == count_upto(v@, c, n as int),
{
    let mut r: usize = 0;
    let mut j: usize = 0;
    while j < n
        invariant
            j <= n <= v@.len(),
            r == count_upto(v@, c, j as int),
            r <= j,
        decreases n - j,
    {
        if v[j] == c {
            r += 1;
        }
        j += 1;
    }
    r
}

/// Count positions among the first `n` where `g` and `t` both hold `c`.
pub fn exact_count(g: &Vec<char>, t: &Vec<char>, c: char, n: usize) -> (r: usize)
    requires
        n <= g@.len(),
        n <= t@.len(),
    ensures
        r == exact_upto(g@, t@, c, n as int),
{
    let mut r: usize = 0;
    let mut j: usize = 0;
    while j < n
        invariant
            j <= n <= g@.len(),
            n <= t@.len(),
            r == exact_upto(g@, t@, c, j as int),
            r <= j,
        decreases n - j,
    {
        if g[j] == c && t[j] == c {
            r += 1;
        }
        j += 1;
    }
    r
}

/// The characters of `s`, in order, as a vector.
pub fn chars_of(s: &str) -> (r: Vec<char>)
    ensures
        r@ == s@,
{
    let n = s.unicode_len();
    let mut r: Vec<char> = Vec::new();
    let mut i: usize = 0;
    while i < n
        invariant
            i <= n,
            n == s@.len(),
            r@.len() == i,
            forall|j: int| 0 <= j < i ==> r@[j] == s@[j],
        decreases n - i,
    {
        r.push(s.get_char(i));
        i += 1;
    }
    proof {
        assert(r@ =~= s@);
    }
    r
}

/// Whether two words consist of the same characters in the same order.
pub fn words_equal(a: &str, b: &str) -> (r: bool)
    ensures
        r == (a@ == b@),
{
    let an = a.unicode_len();
    let bn = b.unicode_len();
    if an != bn {
        return false;
    }
    let mut i: usize = 0;
    while i < an
        invariant
            i <= an,
            an == a@.len(),
            an == b@.len(),
            forall|j: int| 0 <= j < i ==> a@[j] == b@[j],
        decreases an - i,
    {
        if a.get_char(i) != b.get_char(i) {
            return false;
        }
        i += 1;
    }
    proof {
        assert(a@ =~= b@);
    }
    true
}

} // verus!
