use speedy::config::TimingConfig;
use speedy::timing::wpm_to_milliseconds;
use speedy::token::Token;
use speedy::tokenizer::{detect_sentence_boundary, tokenize_text};

#[test]
fn test_stacked_punctuation_question_exclamation() {
    let text = "hello?!";
    let config = TimingConfig::default();
    let tokens = tokenize_text(text);
    assert_eq!(tokens.len(), 1);
    assert_eq!(tokens[0].text, "hello");
    assert_eq!(tokens[0].punctuation, vec!['?', '!']);
}

#[test]
fn test_stacked_punctuation_multiple_periods() {
    let text = "wait...";
    let config = TimingConfig::default();
    let tokens = tokenize_text(text);
    assert_eq!(tokens.len(), 1);
    assert_eq!(tokens[0].text, "wait");
    assert_eq!(tokens[0].punctuation, vec!['.', '.', '.']);
}

#[test]
fn test_stacked_punctuation_comma_period() {
    let text = "hello.,";
    let config = TimingConfig::default();
    let tokens = tokenize_text(text);
    assert_eq!(tokens.len(), 1);
    assert_eq!(tokens[0].text, "hello");
    assert_eq!(tokens[0].punctuation, vec!['.', ',']);
}

#[test]
fn timing_test_wpm_to_milliseconds_precision_350() {
    let result = wpm_to_milliseconds(350);
    assert_eq!(result, 171);
}

#[test]
fn timing_test_wpm_to_milliseconds_precision_333() {
    let result = wpm_to_milliseconds(333);
    assert_eq!(result, 180);
}

#[test]
fn timing_test_wpm_to_milliseconds_precision_165() {
    let result = wpm_to_milliseconds(165);
    assert_eq!(result, 364);
}

#[test]
fn timing_test_wpm_to_milliseconds_300() {
    let result = wpm_to_milliseconds(300);
    assert_eq!(result, 200);
}

#[test]
fn timing_test_wpm_to_milliseconds_600() {
    let result = wpm_to_milliseconds(600);
    assert_eq!(result, 100);
}

#[test]
fn timing_test_tokenize_single_word() {
    let text = "hello";
    let config = TimingConfig::default();
    let tokens = tokenize_text(text);
    assert_eq!(tokens.len(), 1);
    assert_eq!(tokens[0].text, "hello");
}

#[test]
fn timing_test_tokenize_multiple_words() {
    let text = "hello world";
    let config = TimingConfig::default();
    let tokens = tokenize_text(text);
    assert_eq!(tokens.len(), 2);
    assert_eq!(tokens[0].text, "hello");
    assert_eq!(tokens[1].text, "world");
}

#[test]
fn timing_test_tokenize_with_wpm_300() {
    let text = "hello world";
    let tokens = tokenize_text(text);
    assert_eq!(tokens.len(), 2);
}

#[test]
fn test_tokenize_with_wpm_600() {
    let text = "hello world";
    let mut config = TimingConfig::default();
    config.wpm = 600;
    let tokens = tokenize_text(text);
    assert_eq!(tokens.len(), 2);
}

#[test]
fn timing_test_tokenize_with_period() {
    let text = "hello world.";
    let config = TimingConfig::default();
    let tokens = tokenize_text(text);
    assert_eq!(tokens.len(), 2);
    assert_eq!(tokens[0].text, "hello");
    assert_eq!(tokens[0].punctuation, vec![]);
    assert_eq!(tokens[1].text, "world");
    assert_eq!(tokens[1].punctuation, vec!['.']);
}

#[test]
fn timing_test_tokenize_with_exclamation() {
    let text = "hello world!";
    let config = TimingConfig::default();
    let tokens = tokenize_text(text);
    assert_eq!(tokens.len(), 2);
    assert_eq!(tokens[0].text, "hello");
    assert_eq!(tokens[0].punctuation, vec![]);
    assert_eq!(tokens[1].text, "world");
    assert_eq!(tokens[1].punctuation, vec!['!']);
}

#[test]
fn timing_test_tokenize_long_word() {
    let text = "extraordinarily";
    let config = TimingConfig::default();
    let tokens = tokenize_text(text);
    assert_eq!(tokens.len(), 1);
    assert_eq!(tokens[0].text, "extraordinarily");
    assert_eq!(tokens[0].punctuation, vec![]);
}

#[test]
fn timing_test_tokenize_short_word() {
    let text = "hello";
    let config = TimingConfig::default();
    let tokens = tokenize_text(text);
    assert_eq!(tokens.len(), 1);
    assert_eq!(tokens[0].text, "hello");
    assert_eq!(tokens[0].punctuation, vec![]);
}

#[test]
fn timing_test_tokenize_newline() {
    let text = "hello\nworld";
    let config = TimingConfig::default();
    let tokens = tokenize_text(text);
    assert_eq!(tokens.len(), 3);
    assert_eq!(tokens[0].text, "hello");
    assert_eq!(tokens[0].punctuation, vec![]);
    assert_eq!(tokens[1].text, "");
    assert_eq!(tokens[1].punctuation, vec!['\n']);
    assert_eq!(tokens[2].text, "world");
    assert_eq!(tokens[2].punctuation, vec![]);
}

#[test]
fn timing_test_tokenize_long_word_with_punctuation() {
    let text = "extraordinarily.";
    let config = TimingConfig::default();
    let tokens = tokenize_text(text);
    assert_eq!(tokens.len(), 1);
    assert_eq!(tokens[0].text, "extraordinarily");
    assert_eq!(tokens[0].punctuation, vec!['.']);
}

#[test]
fn timing_test_tokenize_single_word_no_phantom_newline() {
    let text = "hello";
    let config = TimingConfig::default();
    let tokens = tokenize_text(text);
    assert_eq!(tokens.len(), 1);
    assert_eq!(tokens[0].text, "hello");
    assert_eq!(tokens[0].punctuation, vec![]);
}

#[test]
fn timing_test_is_sentence_start_set_correctly() {
    let text = "Hello. World? Good!";
    let tokens = tokenize_text(text);

    assert_eq!(tokens.len(), 3);
    assert!(
        tokens[0].is_sentence_start,
        "First token should be marked as sentence start"
    );
    assert!(
        tokens[1].is_sentence_start,
        "World should be marked as sentence start (period before)"
    );
    assert!(
        tokens[2].is_sentence_start,
        "Good should be marked as sentence start (question mark before)"
    );
}

#[test]
fn timing_test_tokenize_single_sentence() {
    let text = "Hello world";
    let tokens = tokenize_text(text);

    assert_eq!(tokens.len(), 2);
    assert!(
        tokens[0].is_sentence_start,
        "First token should be marked as sentence start"
    );
    assert!(
        !tokens[1].is_sentence_start,
        "Second token without terminator should NOT be sentence start"
    );
}

#[test]
fn timing_test_tokenize_multiple_sentences() {
    let text = "Hello. World! Good? Yes";
    let tokens = tokenize_text(text);

    assert_eq!(tokens.len(), 4);
    for (i, token) in tokens.iter().enumerate() {
        assert!(
            token.is_sentence_start,
            "Token {} should be marked as sentence start",
            i + 1
        );
    }
}
