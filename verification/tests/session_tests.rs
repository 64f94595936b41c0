use wordle::board::FILLER;
use wordle::engine::{GameError, GameState, HitInfo};
use wordle::select::choose_target;
use wordle::session::{InputEvent, SessionStatus};

fn dictionary() -> Vec<String> {
    vec![
        "hello".to_string(),
        "world".to_string(),
        "jolly".to_string(),
        "crane".to_string(),
        "slate".to_string(),
        "pride".to_string(),
        "mound".to_string(),
    ]
}

fn submit_word(game_state: &mut GameState, word: &str) -> SessionStatus {
    for c in word.chars() {
        let status = game_state.handle_event(InputEvent::Character(c));
        assert_eq!(status, SessionStatus::AwaitingInput);
    }
    game_state.handle_event(InputEvent::Submit)
}

#[test]
fn test_six_misses_lose_the_game() {
    let mut game_state = GameState::new("hello".to_string(), dictionary());
    let misses = ["world", "jolly", "crane", "slate", "pride"];
    for word in misses {
        let status = submit_word(&mut game_state, word);
        assert_eq!(status, SessionStatus::AwaitingInput);
        assert!(game_state.last_error.is_none());
    }
    let status = submit_word(&mut game_state, "mound");
    assert_eq!(status, SessionStatus::Lost);
    assert_eq!(game_state.guesses.len(), 6);
    assert!(!game_state.won());
    assert_eq!(game_state.word, "hello".to_string());
}

#[test]
fn test_winning_submission_ends_the_session() {
    let mut game_state = GameState::new("hello".to_string(), dictionary());
    let status = submit_word(&mut game_state, "world");
    assert_eq!(status, SessionStatus::AwaitingInput);
    let status = submit_word(&mut game_state, "hello");
    assert_eq!(status, SessionStatus::Won);
    assert!(game_state.won());
}

#[test]
fn test_rejected_submission_keeps_session_open() {
    let mut game_state = GameState::new("hello".to_string(), dictionary());
    let status = submit_word(&mut game_state, "zzzzz");
    assert_eq!(status, SessionStatus::AwaitingInput);
    assert_eq!(game_state.last_error, Some(GameError::InvalidWord));
    assert_eq!(game_state.guesses.len(), 0);
}

#[test]
fn test_cancel_changes_nothing() {
    let mut game_state = GameState::new("hello".to_string(), dictionary());
    game_state.handle_event(InputEvent::Character('h'));
    let status = game_state.handle_event(InputEvent::Cancel);
    assert_eq!(status, SessionStatus::Cancelled);
    assert_eq!(game_state.current_guess, "h".to_string());
    assert_eq!(game_state.guesses.len(), 0);
}

#[test]
fn test_backspace_event_erases_one_char() {
    let mut game_state = GameState::new("hello".to_string(), dictionary());
    game_state.handle_event(InputEvent::Character('h'));
    game_state.handle_event(InputEvent::Character('i'));
    let status = game_state.handle_event(InputEvent::Backspace);
    assert_eq!(status, SessionStatus::AwaitingInput);
    assert_eq!(game_state.current_guess, "h".to_string());
}

#[test]
fn test_row_text_shows_history_buffer_and_filler() {
    let mut game_state = GameState::new("hello".to_string(), dictionary());
    game_state.guess("world".to_string()).unwrap();
    game_state.add_char('h');
    game_state.add_char('e');
    assert_eq!(game_state.row_text(0), "world".to_string());
    assert_eq!(game_state.row_text(1), "he___".to_string());
    assert_eq!(game_state.row_text(2), "_____".to_string());
    assert_eq!(FILLER, '_');
}

#[test]
fn test_row_marks_for_submitted_and_pending_rows() {
    let mut game_state = GameState::new("hello".to_string(), dictionary());
    game_state.guess("jolly".to_string()).unwrap();
    assert_eq!(
        game_state.row_marks(0),
        vec![
            HitInfo::Miss,
            HitInfo::Contains,
            HitInfo::Hit,
            HitInfo::Hit,
            HitInfo::Miss,
        ]
    );
    assert_eq!(game_state.row_marks(1), vec![HitInfo::Unknown; 5]);
    assert_eq!(game_state.row_marks(5), vec![HitInfo::Unknown; 5]);
}

#[test]
fn test_choose_target_returns_a_listed_word() {
    let single = vec!["hello".to_string()];
    assert_eq!(choose_target(&single), "hello".to_string());
    let words = dictionary();
    for _ in 0..20 {
        let target = choose_target(&words);
        assert!(words.contains(&target));
    }
}
