use speedy::app::App;
use speedy::event::AppEvent;
use speedy::input::LoadedDocument;
use speedy::mode::AppMode;
use speedy::token::Token;

#[test]
fn test_apply_loaded_document() {
    let mut app = App::new();
    let doc = LoadedDocument {
        tokens: vec![
            Token {
                text: "hello".to_string(),
                punctuation: vec![],
                is_sentence_start: true,
            },
            Token {
                text: "world".to_string(),
                punctuation: vec![],
                is_sentence_start: false,
            },
        ],
        source: "test.pdf".to_string(),
    };

    assert_eq!(app.mode, AppMode::Repl);
    assert!(app.reading_state.is_none());

    app.apply_loaded_document(doc);

    assert_eq!(app.mode, AppMode::Reading);
    assert!(app.reading_state.is_some());
    assert_eq!(app.reading_state.as_ref().unwrap().tokens.len(), 2);
    assert_eq!(app.reading_state.as_ref().unwrap().current_index, 0);
}

#[test]
fn test_handle_load_nonexistent_pdf() {
    let mut app = App::new();
    app.handle_event(AppEvent::LoadFile("/nonexistent.pdf".to_string()));

    assert_eq!(app.mode, AppMode::Repl);
    assert!(app.reading_state.is_none());
}

#[test]
fn test_handle_load_unsupported_format() {
    let mut app = App::new();
    app.handle_event(AppEvent::LoadFile("/document.txt".to_string()));

    assert_eq!(app.mode, AppMode::Repl);
    assert!(app.reading_state.is_none());
}

#[test]
fn test_get_render_state_no_reading() {
    let app = App::new();
    let render = app.get_render_state();

    assert_eq!(render.mode, AppMode::Repl);
    assert!(render.current_word.is_none());
}

#[test]
fn test_get_render_state_reading() {
    let mut app = App::new();
    let doc = LoadedDocument {
        tokens: vec![Token {
            text: "hello".to_string(),
            punctuation: vec![],
            is_sentence_start: true,
        }],
        source: "test.pdf".to_string(),
    };
    app.apply_loaded_document(doc);

    let render = app.get_render_state();

    assert_eq!(render.mode, AppMode::Reading);
    assert_eq!(render.current_word, Some("hello".to_string()));
}

#[test]
fn test_quit_event() {
    let mut app = App::new();
    app.handle_event(AppEvent::Quit);
    assert_eq!(app.mode, AppMode::Quit);
}

#[test]
fn test_invalid_command_event() {
    let mut app = App::new();
    app.handle_event(AppEvent::InvalidCommand("unknown".to_string()));
    assert_eq!(app.mode, AppMode::Repl);
}

#[test]
fn test_keypress_j_forward_sentence() {
    let mut app = App::new();
    let doc = LoadedDocument {
        tokens: vec![
            Token {
                text: "First".to_string(),
                punctuation: vec![],
                is_sentence_start: true,
            },
            Token {
                text: "sentence".to_string(),
                punctuation: vec!['.'],
                is_sentence_start: false,
            },
            Token {
                text: "Second".to_string(),
                punctuation: vec![],
                is_sentence_start: true,
            },
            Token {
                text: "sentence".to_string(),
                punctuation: vec!['.'],
                is_sentence_start: false,
            },
        ],
        source: "test.pdf".to_string(),
    };
    app.apply_loaded_document(doc);

    assert_eq!(app.reading_state.as_ref().unwrap().current_index, 0);

    let result = app.handle_keypress('j');
    assert!(result);
    assert_eq!(app.reading_state.as_ref().unwrap().current_index, 2);
}

#[test]
fn test_keypress_k_backward_sentence() {
    let mut app = App::new();
    let doc = LoadedDocument {
        tokens: vec![
            Token {
                text: "First".to_string(),
                punctuation: vec![],
                is_sentence_start: true,
            },
            Token {
                text: "sentence".to_string(),
                punctuation: vec!['.'],
                is_sentence_start: false,
            },
            Token {
                text: "Second".to_string(),
                punctuation: vec![],
                is_sentence_start: true,
            },
        ],
        source: "test.pdf".to_string(),
    };
    app.apply_loaded_document(doc);

    app.handle_keypress('j');
    assert_eq!(app.reading_state.as_ref().unwrap().current_index, 2);

    let result = app.handle_keypress('k');
    assert!(result);
    assert_eq!(app.reading_state.as_ref().unwrap().current_index, 0);
}

#[test]
fn test_keypress_bracket_increase_wpm() {
    let mut app = App::new();
    let doc = LoadedDocument {
        tokens: vec![Token {
            text: "test".to_string(),
            punctuation: vec![],
            is_sentence_start: true,
        }],
        source: "test.pdf".to_string(),
    };
    app.apply_loaded_document(doc);

    let initial_wpm = app.reading_state.as_ref().unwrap().wpm;

    let result = app.handle_keypress(']');
    assert!(result);
    assert_eq!(app.reading_state.as_ref().unwrap().wpm, initial_wpm + 50);
}

#[test]
fn test_keypress_bracket_decrease_wpm() {
    let mut app = App::new();
    let doc = LoadedDocument {
        tokens: vec![Token {
            text: "test".to_string(),
            punctuation: vec![],
            is_sentence_start: true,
        }],
        source: "test.pdf".to_string(),
    };
    app.apply_loaded_document(doc);

    let initial_wpm = app.reading_state.as_ref().unwrap().wpm;

    let result = app.handle_keypress('[');
    assert!(result);
    assert_eq!(app.reading_state.as_ref().unwrap().wpm, initial_wpm - 50);
}

#[test]
fn test_keypress_space_toggle_pause() {
    let mut app = App::new();
    let doc = LoadedDocument {
        tokens: vec![Token {
            text: "test".to_string(),
            punctuation: vec![],
            is_sentence_start: true,
        }],
        source: "test.pdf".to_string(),
    };
    app.apply_loaded_document(doc);

    assert_eq!(app.mode, AppMode::Reading);

    let result = app.handle_keypress(' ');
    assert!(result);
    assert_eq!(app.mode, AppMode::Paused);

    let result = app.handle_keypress(' ');
    assert!(result);
    assert_eq!(app.mode, AppMode::Reading);
}

#[test]
fn test_keypress_q_quit_to_repl() {
    let mut app = App::new();
    let doc = LoadedDocument {
        tokens: vec![Token {
            text: "test".to_string(),
            punctuation: vec![],
            is_sentence_start: true,
        }],
        source: "test.pdf".to_string(),
    };
    app.apply_loaded_document(doc);

    assert_eq!(app.mode, AppMode::Reading);

    let result = app.handle_keypress('q');
    assert!(result);
    assert_eq!(app.mode, AppMode::Repl);
}

#[test]
fn test_keypress_no_reading_state() {
    let mut app = App::new();

    let result = app.handle_keypress('j');
    assert!(!result);
}

#[test]
fn test_keypress_repl_mode_ignored() {
    let mut app = App::new();
    let result = app.handle_keypress('j');
    assert!(!result);
}

#[test]
fn test_advance_reading_moves_to_next_word() {
    let mut app = App::new();
    app.start_reading("hello world test", 300);
    assert_eq!(app.reading_state.as_ref().unwrap().current_index, 0);

    let advanced = app.advance_reading();
    assert!(advanced);
    assert_eq!(app.reading_state.as_ref().unwrap().current_index, 1);
}

#[test]
fn test_advance_reading_returns_false_at_end() {
    let mut app = App::new();
    app.start_reading("hello", 300);
    assert_eq!(app.reading_state.as_ref().unwrap().current_index, 0);

    let advanced = app.advance_reading();
    assert!(!advanced);
    assert_eq!(app.reading_state.as_ref().unwrap().current_index, 0);
}

#[test]
fn test_advance_reading_returns_false_with_no_state() {
    let mut app = App::new();
    let advanced = app.advance_reading();
    assert!(!advanced);
}
