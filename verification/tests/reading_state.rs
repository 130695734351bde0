use speedy::state::ReadingState;
use speedy::token::Token;

fn create_test_token(text: &str, is_sentence_start: bool) -> Token {
    Token {
        text: text.to_string(),
        punctuation: vec![],
        is_sentence_start,
    }
}

#[test]
fn test_find_next_sentence_start() {
    let tokens = vec![
        create_test_token("First", true),
        create_test_token("sentence", false),
        create_test_token("Second", true),
        create_test_token("sentence", false),
    ];
    let state = ReadingState::new_with_default_config(tokens, 300);
    assert_eq!(state.find_next_sentence_start(), Some(2));
}

#[test]
fn test_find_next_sentence_start_none() {
    let tokens = vec![
        create_test_token("Only", true),
        create_test_token("sentence", false),
    ];
    let mut state = ReadingState::new_with_default_config(tokens, 300);
    state.current_index = 1;
    assert_eq!(state.find_next_sentence_start(), None);
}

#[test]
fn test_jump_to_next_sentence() {
    let tokens = vec![
        create_test_token("First", true),
        create_test_token("sentence", false),
        create_test_token("Second", true),
        create_test_token("sentence", false),
    ];
    let mut state = ReadingState::new_with_default_config(tokens, 300);
    assert!(state.jump_to_next_sentence());
    assert_eq!(state.current_index, 2);
}

#[test]
fn test_find_previous_sentence_start() {
    let tokens = vec![
        create_test_token("First", true),
        create_test_token("sentence", false),
        create_test_token("Second", true),
        create_test_token("here", false),
    ];
    let mut state = ReadingState::new_with_default_config(tokens, 300);
    state.current_index = 3;
    assert_eq!(state.find_previous_sentence_start(), Some(2));
}

#[test]
fn test_find_previous_sentence_start_none() {
    let tokens = vec![
        create_test_token("First", true),
        create_test_token("sentence", false),
    ];
    let mut state = ReadingState::new_with_default_config(tokens, 300);
    state.current_index = 0;
    assert_eq!(state.find_previous_sentence_start(), None);
}

#[test]
fn test_jump_to_previous_sentence() {
    let tokens = vec![
        create_test_token("First", true),
        create_test_token("sentence", false),
        create_test_token("Second", true),
        create_test_token("here", false),
    ];
    let mut state = ReadingState::new_with_default_config(tokens, 300);
    state.current_index = 3;
    assert!(state.jump_to_previous_sentence());
    assert_eq!(state.current_index, 2);
}

#[test]
fn test_current_token() {
    let tokens = vec![
        create_test_token("hello", true),
        create_test_token("world", false),
    ];
    let state = ReadingState::new_with_default_config(tokens, 300);
    assert_eq!(state.current_token().unwrap().text, "hello");
}

#[test]
fn test_current_token_duration() {
    let tokens = vec![create_test_token("hello", true)];
    let state = ReadingState::new_with_default_config(tokens, 300);
    assert_eq!(state.current_token_duration(), 200);
}

#[test]
fn test_current_token_duration_long_word() {
    let tokens = vec![Token {
        text: "extraordinarily".to_string(),
        punctuation: vec![],
        is_sentence_start: true,
    }];
    let state = ReadingState::new_with_default_config(tokens, 300);
    assert_eq!(state.current_token_duration(), 230);
}

#[test]
fn test_current_token_duration_with_punctuation() {
    let tokens = vec![Token {
        text: "hello".to_string(),
        punctuation: vec!['.'],
        is_sentence_start: true,
    }];
    let state = ReadingState::new_with_default_config(tokens, 300);
    assert_eq!(state.current_token_duration(), 600);
}

#[test]
fn test_adjust_wpm() {
    let tokens = vec![create_test_token("test", true)];
    let mut state = ReadingState::new_with_default_config(tokens, 300);
    state.adjust_wpm(50);
    assert_eq!(state.wpm, 350);
}

#[test]
fn test_adjust_wpm_clamp_min() {
    let tokens = vec![create_test_token("test", true)];
    let mut state = ReadingState::new_with_default_config(tokens, 100);
    state.adjust_wpm(-200);
    assert_eq!(state.wpm, 50);
}

#[test]
fn test_adjust_wpm_clamp_max() {
    let tokens = vec![create_test_token("test", true)];
    let mut state = ReadingState::new_with_default_config(tokens, 1000);
    state.adjust_wpm(500);
    assert_eq!(state.wpm, 1000);
}

#[test]
fn test_advance() {
    let tokens = vec![
        create_test_token("hello", true),
        create_test_token("world", false),
    ];
    let mut state = ReadingState::new_with_default_config(tokens, 300);
    assert_eq!(state.current_index, 0);
    state.advance();
    assert_eq!(state.current_index, 1);
}

#[test]
fn test_advance_at_end() {
    let tokens = vec![create_test_token("hello", true)];
    let mut state = ReadingState::new_with_default_config(tokens, 300);
    state.advance();
    assert_eq!(state.current_index, 0);
}

#[test]
fn test_new_with_default_config() {
    let tokens = vec![create_test_token("test", true)];
    let state = ReadingState::new_with_default_config(tokens, 300);
    assert_eq!(state.wpm, 300);
    assert_eq!(state.current_index, 0);
}

#[test]
fn test_get_wpm() {
    let tokens = vec![create_test_token("test", true)];
    let state = ReadingState::new_with_default_config(tokens, 450);
    assert_eq!(state.get_wpm(), 450);
}
