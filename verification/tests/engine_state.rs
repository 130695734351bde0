use speedy::state::ReadingState;
use speedy::token::Token;

#[test]
fn state_test_readingstate_initialization() {
    let tokens = vec![
        Token {
            text: "hello".to_string(),
            punctuation: vec![],
            is_sentence_start: false,
        },
        Token {
            text: "world".to_string(),
            punctuation: vec![],
            is_sentence_start: false,
        },
    ];
    let state = ReadingState::new_with_default_config(tokens, 300);
    assert_eq!(state.current_index, 0);
    assert_eq!(state.wpm, 300);
}

#[test]
fn state_test_readingstate_current_token() {
    let tokens = vec![
        Token {
            text: "hello".to_string(),
            punctuation: vec![],
            is_sentence_start: false,
        },
        Token {
            text: "world".to_string(),
            punctuation: vec![],
            is_sentence_start: false,
        },
    ];
    let state = ReadingState::new_with_default_config(tokens, 300);
    assert_eq!(state.current_token().unwrap().text, "hello");
}

#[test]
fn state_test_readingstate_advance() {
    let tokens = vec![
        Token {
            text: "hello".to_string(),
            punctuation: vec![],
            is_sentence_start: false,
        },
        Token {
            text: "world".to_string(),
            punctuation: vec![],
            is_sentence_start: false,
        },
    ];
    let mut state = ReadingState::new_with_default_config(tokens, 300);
    state.advance();
    assert_eq!(state.current_index, 1);
}

#[test]
fn state_test_readingstate_adjust_wpm_decrease() {
    let mut state = ReadingState::new_with_default_config(vec![], 300);
    state.adjust_wpm(-50);
    assert_eq!(state.wpm, 250);
}

#[test]
fn state_test_readingstate_adjust_wpm_increase() {
    let mut state = ReadingState::new_with_default_config(vec![], 300);
    state.adjust_wpm(50);
    assert_eq!(state.wpm, 350);
}

#[test]
fn state_test_readingstate_adjust_wpm_minimum_bound() {
    let mut state = ReadingState::new_with_default_config(vec![], 300);
    state.adjust_wpm(-100);
    assert!(state.wpm >= 50);
}

#[test]
fn state_test_readingstate_adjust_wpm_maximum_bound() {
    let mut state = ReadingState::new_with_default_config(vec![], 100);
    state.adjust_wpm(100);
    assert!(state.wpm <= 1000);
}

#[test]
fn test_dynamic_wpm_changes_token_duration() {
    let tokens = vec![Token {
        text: "hello".to_string(),
        punctuation: vec![],
        is_sentence_start: false,
    }];
    let mut state = ReadingState::new_with_default_config(tokens, 300);

    let duration_300 = state.current_token_duration();
    assert_eq!(duration_300, 200, "300 WPM should give 200ms per word");

    state.adjust_wpm(300);
    assert_eq!(state.wpm, 600);

    let duration_600 = state.current_token_duration();
    assert_eq!(duration_600, 100, "600 WPM should give 100ms per word");
}

#[test]
fn test_dynamic_wpm_with_punctuation_multiplier() {
    let tokens = vec![Token {
        text: "hello".to_string(),
        punctuation: vec!['.'],
        is_sentence_start: false,
    }];
    let mut state = ReadingState::new_with_default_config(tokens, 100);

    assert_eq!(state.current_token_duration(), 1800);

    state.adjust_wpm(100);
    assert_eq!(state.current_token_duration(), 900);
}

#[test]
fn test_jump_to_next_middle() {
    let tokens = vec![
        Token {
            text: "Hello".to_string(),
            punctuation: vec![],
            is_sentence_start: true,
        },
        Token {
            text: "world".to_string(),
            punctuation: vec!['.'],
            is_sentence_start: false,
        },
        Token {
            text: "This".to_string(),
            punctuation: vec![],
            is_sentence_start: true,
        },
        Token {
            text: "is".to_string(),
            punctuation: vec![],
            is_sentence_start: false,
        },
    ];
    let mut state = ReadingState::new_with_default_config(tokens, 300);
    assert_eq!(state.current_index, 0);

    let jumped = state.jump_to_next_sentence();
    assert!(jumped);
    assert_eq!(state.current_index, 2);
}

#[test]
fn test_jump_to_next_at_boundary() {
    let tokens = vec![
        Token {
            text: "Hello".to_string(),
            punctuation: vec![],
            is_sentence_start: true,
        },
        Token {
            text: "world".to_string(),
            punctuation: vec!['.'],
            is_sentence_start: false,
        },
        Token {
            text: "This".to_string(),
            punctuation: vec![],
            is_sentence_start: true,
        },
    ];
    let mut state = ReadingState::new_with_default_config(tokens, 300);
    assert_eq!(state.current_index, 0);

    let jumped = state.jump_to_next_sentence();
    assert!(jumped);
    assert_eq!(state.current_index, 2);
}

#[test]
fn test_jump_to_next_last_sentence() {
    let tokens = vec![
        Token {
            text: "Hello".to_string(),
            punctuation: vec![],
            is_sentence_start: true,
        },
        Token {
            text: "world".to_string(),
            punctuation: vec!['.'],
            is_sentence_start: false,
        },
    ];
    let mut state = ReadingState::new_with_default_config(tokens, 300);
    assert_eq!(state.current_index, 0);

    let jumped = state.jump_to_next_sentence();
    assert!(!jumped);
    assert_eq!(state.current_index, 0);
}

#[test]
fn test_jump_to_next_empty_stream() {
    let tokens = vec![];
    let mut state = ReadingState::new_with_default_config(tokens, 300);

    let jumped = state.jump_to_next_sentence();
    assert!(!jumped);
    assert_eq!(state.current_index, 0);
}

#[test]
fn test_find_next_no_more_sentences() {
    let tokens = vec![
        Token {
            text: "Hello".to_string(),
            punctuation: vec![],
            is_sentence_start: true,
        },
        Token {
            text: "world".to_string(),
            punctuation: vec!['.'],
            is_sentence_start: false,
        },
    ];
    let mut state = ReadingState::new_with_default_config(tokens, 300);
    state.current_index = 1;

    let next = state.find_next_sentence_start();
    assert!(next.is_none());
}

#[test]
fn test_jump_to_prev_middle() {
    let tokens = vec![
        Token {
            text: "Hello".to_string(),
            punctuation: vec![],
            is_sentence_start: true,
        },
        Token {
            text: "world".to_string(),
            punctuation: vec!['.'],
            is_sentence_start: false,
        },
        Token {
            text: "This".to_string(),
            punctuation: vec![],
            is_sentence_start: true,
        },
        Token {
            text: "is".to_string(),
            punctuation: vec![],
            is_sentence_start: false,
        },
    ];
    let mut state = ReadingState::new_with_default_config(tokens, 300);
    state.current_index = 3;

    let jumped = state.jump_to_previous_sentence();
    assert!(jumped);
    assert_eq!(state.current_index, 2);
}

#[test]
fn test_jump_to_prev_at_boundary() {
    let tokens = vec![
        Token {
            text: "Hello".to_string(),
            punctuation: vec![],
            is_sentence_start: true,
        },
        Token {
            text: "world".to_string(),
            punctuation: vec!['.'],
            is_sentence_start: false,
        },
        Token {
            text: "This".to_string(),
            punctuation: vec![],
            is_sentence_start: true,
        },
    ];
    let mut state = ReadingState::new_with_default_config(tokens, 300);
    state.current_index = 2;

    let jumped = state.jump_to_previous_sentence();
    assert!(jumped);
    assert_eq!(state.current_index, 0);
}

#[test]
fn test_jump_to_prev_first_sentence() {
    let tokens = vec![
        Token {
            text: "Hello".to_string(),
            punctuation: vec![],
            is_sentence_start: true,
        },
        Token {
            text: "world".to_string(),
            punctuation: vec!['.'],
            is_sentence_start: false,
        },
    ];
    let mut state = ReadingState::new_with_default_config(tokens, 300);
    state.current_index = 0;

    let jumped = state.jump_to_previous_sentence();
    assert!(!jumped);
    assert_eq!(state.current_index, 0);
}

#[test]
fn test_jump_to_prev_empty_stream() {
    let tokens = vec![];
    let mut state = ReadingState::new_with_default_config(tokens, 300);

    let jumped = state.jump_to_previous_sentence();
    assert!(!jumped);
    assert_eq!(state.current_index, 0);
}

#[test]
fn test_find_prev_no_more_sentences() {
    let tokens = vec![
        Token {
            text: "Hello".to_string(),
            punctuation: vec![],
            is_sentence_start: true,
        },
        Token {
            text: "world".to_string(),
            punctuation: vec!['.'],
            is_sentence_start: false,
        },
    ];
    let mut state = ReadingState::new_with_default_config(tokens, 300);
    state.current_index = 0;

    let prev = state.find_previous_sentence_start();
    assert!(prev.is_none());
}
