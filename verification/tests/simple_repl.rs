use speedy::simple_repl::{parse_repl_input, ReplCommand};

#[test]
fn test_parse_repl_input_load_file() {
    let input = "@test.txt";
    let command = parse_repl_input(input);
    assert_eq!(command, ReplCommand::LoadFile("test.txt".to_string()));
}

#[test]
fn test_parse_repl_input_load_clipboard() {
    let input = "@@";
    let command = parse_repl_input(input);
    assert_eq!(command, ReplCommand::LoadClipboard);
}

#[test]
fn test_parse_repl_input_quit() {
    let input = ":q";
    let command = parse_repl_input(input);
    assert_eq!(command, ReplCommand::Quit);
}

#[test]
fn test_parse_repl_input_help() {
    let input = ":h";
    let command = parse_repl_input(input);
    assert_eq!(command, ReplCommand::Help);
}
