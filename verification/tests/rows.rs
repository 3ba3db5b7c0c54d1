use wurds::row::LetterVisibility;
use wurds::row::Row;
use wurds::row::RowVisibility;
use wurds::WORD_SIZE;

fn visibilities(row: &Row) -> Vec<LetterVisibility> {
    (0..WORD_SIZE).map(|i| row.letter(i).visibility()).collect()
}

fn inners(row: &Row) -> Vec<char> {
    (0..WORD_SIZE).map(|i| row.letter(i).inner()).collect()
}

#[test]
fn identical_guess_all_correct() {
    let row = Row::new_guess("hello", "hello");
    assert!(row.is_visible());
    assert_eq!(inners(&row), vec!['h', 'e', 'l', 'l', 'o']);
    assert_eq!(visibilities(&row), vec![LetterVisibility::RevealedCorrect; 5]);
}

#[test]
fn world_guess_pattern() {
    let row = Row::new_guess("world", "hello");
    assert_eq!(inners(&row), vec!['w', 'o', 'r', 'l', 'd']);
    assert_eq!(
        visibilities(&row),
        vec![
            LetterVisibility::RevealedIncorrect,
            LetterVisibility::RevealedShifted,
            LetterVisibility::RevealedIncorrect,
            LetterVisibility::RevealedCorrect,
            LetterVisibility::RevealedIncorrect,
        ]
    );
}

#[test]
fn lilac_duplicate_letters() {
    // Target "hello" holds two l's: the guess's first 'l' shifts because
    // one 'l' is still unconsumed after the exact match at index 2.
    let row = Row::new_guess("lilac", "hello");
    assert_eq!(
        visibilities(&row),
        vec![
            LetterVisibility::RevealedShifted,
            LetterVisibility::RevealedIncorrect,
            LetterVisibility::RevealedCorrect,
            LetterVisibility::RevealedIncorrect,
            LetterVisibility::RevealedIncorrect,
        ]
    );
}

#[test]
fn exact_match_consumes_duplicate_letter() {
    // Target "hello" holds a single 'e', consumed by the exact match at
    // index 1; the second 'e' of the guess must not be reported shifted.
    let row = Row::new_guess("heels", "hello");
    assert_eq!(
        visibilities(&row),
        vec![
            LetterVisibility::RevealedCorrect,
            LetterVisibility::RevealedCorrect,
            LetterVisibility::RevealedIncorrect,
            LetterVisibility::RevealedCorrect,
            LetterVisibility::RevealedIncorrect,
        ]
    );
}

#[test]
fn disjoint_guess_all_incorrect() {
    let row = Row::new_guess("drift", "hello");
    assert_eq!(
        visibilities(&row),
        vec![LetterVisibility::RevealedIncorrect; 5]
    );
}

#[test]
fn conservation_with_excess_letters() {
    // The guess holds four l's but the target only two, both consumed by
    // the exact matches: no position may be reported shifted on top.
    let row = Row::new_guess("llllz", "hello");
    let vis = visibilities(&row);
    let strong = vis
        .iter()
        .filter(|v| {
            **v == LetterVisibility::RevealedCorrect || **v == LetterVisibility::RevealedShifted
        })
        .count();
    assert_eq!(strong, 2);
    assert_eq!(
        vis,
        vec![
            LetterVisibility::RevealedIncorrect,
            LetterVisibility::RevealedIncorrect,
            LetterVisibility::RevealedCorrect,
            LetterVisibility::RevealedCorrect,
            LetterVisibility::RevealedIncorrect,
        ]
    );
}

#[test]
fn shift_budget_goes_to_lowest_indices_first() {
    // Both l's of the target are free to shift; the guess's first two l's
    // take them and no third could.
    let row = Row::new_guess("llama", "hello");
    assert_eq!(
        visibilities(&row),
        vec![
            LetterVisibility::RevealedShifted,
            LetterVisibility::RevealedShifted,
            LetterVisibility::RevealedIncorrect,
            LetterVisibility::RevealedIncorrect,
            LetterVisibility::RevealedIncorrect,
        ]
    );
}

#[test]
fn classification_is_pure() {
    let first = Row::new_guess("lilac", "hello");
    let second = Row::new_guess("lilac", "hello");
    for i in 0..WORD_SIZE {
        assert_eq!(first.letter(i).inner(), second.letter(i).inner());
        assert_eq!(first.letter(i).visibility(), second.letter(i).visibility());
    }
}

#[test]
fn hidden_row_letters_are_hidden() {
    let row = Row::new("hello", RowVisibility::Hidden);
    assert!(!row.is_visible());
    assert_eq!(visibilities(&row), vec![LetterVisibility::Hidden; 5]);
}

#[test]
fn revealed_row_shows_word_as_correct() {
    let row = Row::new("hello", RowVisibility::Revealed);
    assert!(row.is_visible());
    assert_eq!(inners(&row), vec!['h', 'e', 'l', 'l', 'o']);
    assert_eq!(visibilities(&row), vec![LetterVisibility::RevealedCorrect; 5]);
}

#[test]
fn row_iterator_yields_every_letter() {
    let row = Row::new_guess("world", "hello");
    let mut it = row.iter();
    let mut seen = Vec::new();
    while let Some(letter) = it.next() {
        seen.push(letter.inner());
    }
    assert_eq!(seen, vec!['w', 'o', 'r', 'l', 'd']);
    assert!(it.next().is_none());
}

#[test]
fn visibility_ordering() {
    assert!(LetterVisibility::Hidden < LetterVisibility::RevealedIncorrect);
    assert!(LetterVisibility::RevealedIncorrect < LetterVisibility::RevealedShifted);
    assert!(LetterVisibility::RevealedShifted < LetterVisibility::RevealedCorrect);
}

#[test]
fn row_hint_takes_strongest_visibility() {
    let row = Row::new_guess("world", "hello");
    assert_eq!(row.hint('l'), LetterVisibility::RevealedCorrect);
    assert_eq!(row.hint('o'), LetterVisibility::RevealedShifted);
    assert_eq!(row.hint('w'), LetterVisibility::RevealedIncorrect);
    assert_eq!(row.hint('z'), LetterVisibility::Hidden);
}
