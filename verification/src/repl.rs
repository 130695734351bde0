//! The commands of the line-by-line prompt.

use vstd::prelude::*;
use vstd::string::StringExecFns;
use crate::command::{parse_command, spec_parse_command, Command, CommandView};
use crate::event::{AppEvent, AppEventView};

verus! {

/// A command typed at the prompt.
#[derive(Debug, Clone, PartialEq)]
pub enum ReplCommand {
    /// Leave the application.
    Quit,
    /// Show the help.
    Help,
    /// Load the named file.
    LoadFile(String),
    /// Load the clipboard.
    LoadClipboard,
    /// A line that is no command.
    Unknown(String),
}

impl View for ReplCommand {
    type V = CommandView;

    open spec fn view(&self) -> CommandView {
        match self {
            ReplCommand::Quit => CommandView::Quit,
            ReplCommand::Help => CommandView::Help,
            ReplCommand::LoadFile(path) => CommandView::LoadFile(path@),
            ReplCommand::LoadClipboard => CommandView::LoadClipboard,
            ReplCommand::Unknown(input) => CommandView::Unknown(input@),
        }
    }
}

/// Reads one line of the prompt: the prompt knows the commands of the
/// command deck.
pub fn parse_repl_input(input: &str) -> (command: ReplCommand)
    ensures
        command@ == spec_parse_command(input@),
{
    match parse_command(input) {
        Command::Quit => ReplCommand::Quit,
        Command::Help => ReplCommand::Help,
        Command::LoadFile(path) => ReplCommand::LoadFile(path),
        Command::LoadClipboard => ReplCommand::LoadClipboard,
        Command::Unknown(input) => ReplCommand::Unknown(input),
    }
}

/// The request that a prompt command makes of the application. The prompt
/// cannot load the clipboard, and an unknown line asks nothing.
pub open spec fn spec_repl_event(command: CommandView) -> AppEventView {
    match command {
        CommandView::Quit => AppEventView::Quit,
        CommandView::Help => AppEventView::Help,
        CommandView::LoadFile(path) => AppEventView::LoadFile(path),
        CommandView::LoadClipboard => AppEventView::Idle,
        CommandView::Unknown(_) => AppEventView::Idle,
    }
}

/// Turns a prompt command into the request that it makes of the application.
pub fn command_to_app_event(command: ReplCommand) -> (event: AppEvent)
    ensures
        event@ == spec_repl_event(command@),
{
    match command {
        ReplCommand::Quit => AppEvent::Quit,
        ReplCommand::Help => AppEvent::Help,
        ReplCommand::LoadFile(path) => AppEvent::LoadFile(path),
        ReplCommand::LoadClipboard => AppEvent::Idle,
        ReplCommand::Unknown(_) => AppEvent::Idle,
    }
}

/// The request that a line typed at the prompt makes of the application.
pub fn to_app_event(line: &str) -> (event: AppEvent)
    ensures
        event@ == spec_repl_event(spec_parse_command(line@)),
{
    command_to_app_event(parse_repl_input(line))
}

/// What the prompt tells the user about a command that asks nothing of the
/// application: the lines to show, in order.
pub open spec fn spec_command_notice(command: CommandView) -> Seq<Seq<char>> {
    match command {
        CommandView::LoadClipboard => seq![
            "Clipboard input not yet supported."@,
            "Type :q to quit or :h for help."@,
        ],
        CommandView::Unknown(input) => seq!["Unknown command: "@ + input],
        _ => Seq::empty(),
    }
}

/// The lines that the prompt shows for `command`.
pub fn command_notice(command: &ReplCommand) -> (lines: Vec<String>)
    ensures
        crate::spans::string_views(lines@) == spec_command_notice(command@),
{
    let mut lines: Vec<String> = Vec::new();
    match command {
        ReplCommand::LoadClipboard => {
            lines.push(String::from_str("Clipboard input not yet supported."));
            lines.push(String::from_str("Type :q to quit or :h for help."));
        },
        ReplCommand::Unknown(input) => {
            lines.push(String::from_str("Unknown command: ").concat(input.as_str()));
        },
        _ => {},
    }
    assert(crate::spans::string_views(lines@) =~= spec_command_notice(command@));
    lines
}

} // verus!
