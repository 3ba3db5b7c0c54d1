use wurds::game_state::GameResult;
use wurds::game_state::GameState;
use wurds::row::LetterVisibility;
use wurds::wurds_game::GameState as Outcome;
use wurds::wurds_game::WurdsGame;
use wurds::MAX_GUESSES;
use wurds::WORD_SIZE;

#[test]
fn new_game_starts_in_progress() {
    let game = WurdsGame::new(String::from("hello"));
    assert_eq!(game.guess_count(), 1);
    assert!(matches!(game.state(), Outcome::InProgress));
    for i in 0..MAX_GUESSES {
        assert!(!game.row(i).is_visible());
    }
}

#[test]
fn unsubmitted_rows_do_not_leak_the_word() {
    let game = WurdsGame::new(String::from("hello"));
    for i in 0..MAX_GUESSES {
        for j in 0..WORD_SIZE {
            assert_eq!(game.row(i).letter(j).inner(), ' ');
            assert_eq!(game.row(i).letter(j).visibility(), LetterVisibility::Hidden);
        }
    }
}

#[test]
fn winning_guess_wins_immediately() {
    let mut game = WurdsGame::new(String::from("hello"));
    game.make_guess("hello");
    assert!(matches!(game.state(), Outcome::Win));
    assert_eq!(game.guess_count(), 1);
    let row = game.row(0);
    assert!(row.is_visible());
    for j in 0..WORD_SIZE {
        assert_eq!(row.letter(j).visibility(), LetterVisibility::RevealedCorrect);
    }
}

#[test]
fn exhaustion_loses_on_last_guess_exactly() {
    let mut game = WurdsGame::new(String::from("hello"));
    for attempt in 1..=MAX_GUESSES {
        assert!(matches!(game.state(), Outcome::InProgress));
        assert_eq!(game.guess_count(), attempt);
        game.make_guess("world");
        if attempt < MAX_GUESSES {
            assert!(matches!(game.state(), Outcome::InProgress));
            assert_eq!(game.guess_count(), attempt + 1);
        }
    }
    assert!(matches!(game.state(), Outcome::Loss));
    assert_eq!(game.guess_count(), MAX_GUESSES + 1);
}

#[test]
fn win_on_last_attempt() {
    let mut game = WurdsGame::new(String::from("hello"));
    for _ in 1..MAX_GUESSES {
        game.make_guess("world");
    }
    assert!(matches!(game.state(), Outcome::InProgress));
    assert_eq!(game.guess_count(), MAX_GUESSES);
    game.make_guess("hello");
    assert!(matches!(game.state(), Outcome::Win));
    assert_eq!(game.guess_count(), MAX_GUESSES);
}

#[test]
fn rows_reveal_one_per_guess() {
    let mut game = WurdsGame::new(String::from("hello"));
    game.make_guess("world");
    assert!(game.row(0).is_visible());
    for i in 1..MAX_GUESSES {
        assert!(!game.row(i).is_visible());
    }
    game.make_guess("drift");
    assert!(game.row(0).is_visible());
    assert!(game.row(1).is_visible());
    for i in 2..MAX_GUESSES {
        assert!(!game.row(i).is_visible());
    }
}

#[test]
fn rows_returns_every_slot() {
    let mut game = WurdsGame::new(String::from("hello"));
    game.make_guess("world");
    let rows = game.rows();
    assert_eq!(rows.len(), MAX_GUESSES);
    assert!(rows[0].is_visible());
    assert!(!rows[1].is_visible());
}

#[test]
fn letter_hint_keeps_maximum_visibility() {
    let mut game = WurdsGame::new(String::from("hello"));
    assert_eq!(game.letter_hint('o'), LetterVisibility::Hidden);
    game.make_guess("world");
    assert_eq!(game.letter_hint('o'), LetterVisibility::RevealedShifted);
    assert_eq!(game.letter_hint('l'), LetterVisibility::RevealedCorrect);
    assert_eq!(game.letter_hint('w'), LetterVisibility::RevealedIncorrect);
    assert_eq!(game.letter_hint('z'), LetterVisibility::Hidden);
    game.make_guess("mango");
    // The 'o' is now seen in its correct place: the hint only climbs.
    assert_eq!(game.letter_hint('o'), LetterVisibility::RevealedCorrect);
}

#[test]
fn game_state_variant_tracks_result() {
    let mut game = GameState::new(String::from("hello"));
    assert_eq!(game.guess_count(), 1);
    assert!(matches!(game.result(), GameResult::InProgress));
    game.make_guess("world");
    assert!(matches!(game.result(), GameResult::InProgress));
    assert_eq!(game.guess_count(), 2);
    game.make_guess("hello");
    assert!(matches!(game.result(), GameResult::Win));
    assert_eq!(game.guess_count(), 2);
    assert!(game.row(1).is_visible());
}

#[test]
fn game_state_variant_loses_after_exhaustion() {
    let mut game = GameState::new(String::from("hello"));
    for _ in 0..MAX_GUESSES {
        assert!(matches!(game.result(), GameResult::InProgress));
        game.make_guess("drift");
    }
    assert!(matches!(game.result(), GameResult::Loss));
    assert_eq!(game.guess_count(), MAX_GUESSES + 1);
}
