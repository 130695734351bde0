use speedy::event::AppEvent;
use speedy::repl::{command_to_app_event, ReplCommand};

#[test]
fn command_test_command_to_app_event_quit() {
    let event = command_to_app_event(ReplCommand::Quit);
    assert_eq!(event, AppEvent::Quit);
}

#[test]
fn command_test_command_to_app_event_help() {
    let event = command_to_app_event(ReplCommand::Help);
    assert_eq!(event, AppEvent::Help);
}

#[test]
fn command_test_command_to_app_event_load_file() {
    let event = command_to_app_event(ReplCommand::LoadFile("test.txt".to_string()));
    assert_eq!(event, AppEvent::LoadFile("test.txt".to_string()));
}

#[test]
fn command_test_command_to_app_event_load_clipboard() {
    let event = command_to_app_event(ReplCommand::LoadClipboard);
    assert!(matches!(event, AppEvent::Idle));
}

#[test]
fn command_test_command_to_app_event_unknown() {
    let event = command_to_app_event(ReplCommand::Unknown("invalid".to_string()));
    assert!(matches!(event, AppEvent::Idle));
}
