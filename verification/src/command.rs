//! The commands of the command line: `:q`, `:h`, `@file` and `@@`.

use vstd::prelude::*;
use crate::event::{AppEvent, AppEventView};
use crate::text::{chars_of, copy_range, spells, string_of, trim_range, trimmed};

verus! {

/// A command as it was typed.
#[derive(Debug, Clone, PartialEq)]
pub enum Command {
    Quit,
    Help,
    LoadFile(String),
    LoadClipboard,
    Unknown(String),
}

/// The mathematical value of a [`Command`].
pub enum CommandView {
    Quit,
    Help,
    LoadFile(Seq<char>),
    LoadClipboard,
    Unknown(Seq<char>),
}

impl View for Command {
    type V = CommandView;

    open spec fn view(&self) -> CommandView {
        match self {
            Command::Quit => CommandView::Quit,
            Command::Help => CommandView::Help,
            Command::LoadFile(path) => CommandView::LoadFile(path@),
            Command::LoadClipboard => CommandView::LoadClipboard,
            Command::Unknown(input) => CommandView::Unknown(input@),
        }
    }
}

/// The command that a line of input stands for. White space around the line
/// does not count. `:q` and `:quit` quit, `:h` and `:help` ask for help; `@`
/// followed by a name loads that file, the name taken without the white
/// space around it; `@` alone and `@@` load the clipboard. Every other line,
/// the empty one too, is unknown and is kept as it was typed, trimmed.
pub open spec fn spec_parse_command(input: Seq<char>) -> CommandView {
    let line = trimmed(input);
    if line.len() == 0 {
        CommandView::Unknown(line)
    } else if line[0] == ':' {
        let name = line.drop_first();
        if name == "q"@ || name == "quit"@ {
            CommandView::Quit
        } else if name == "h"@ || name == "help"@ {
            CommandView::Help
        } else {
            CommandView::Unknown(line)
        }
    } else if line[0] == '@' {
        let name = trimmed(line.drop_first());
        if name.len() == 0 || name == "@"@ {
            CommandView::LoadClipboard
        } else {
            CommandView::LoadFile(name)
        }
    } else {
        CommandView::Unknown(line)
    }
}

/// Reads one line of the command deck.
pub fn parse_command(input: &str) -> (command: Command)
    ensures
        command@ == spec_parse_command(input@),
{
    let chars = chars_of(input);
    let n: usize = chars.len();
    assert(chars@.subrange(0, n as int) =~= chars@);
    let (from, to) = trim_range(&chars, 0, n);
    let ghost line = chars@.subrange(from as int, to as int);
    if from == to {
        return Command::Unknown(string_of(&chars, from, to));
    }
    assert(line[0] == chars@[from as int]);
    assert(line.drop_first() =~= chars@.subrange(from + 1, to as int));
    if chars[from] == ':' {
        let name = copy_range(&chars, from + 1, to);
        if spells(&name, "q") || spells(&name, "quit") {
            Command::Quit
        } else if spells(&name, "h") || spells(&name, "help") {
            Command::Help
        } else {
            Command::Unknown(string_of(&chars, from, to))
        }
    } else if chars[from] == '@' {
        let (name_from, name_to) = trim_range(&chars, from + 1, to);
        let name = copy_range(&chars, name_from, name_to);
        if name_from == name_to || spells(&name, "@") {
            Command::LoadClipboard
        } else {
            Command::LoadFile(string_of(&chars, name_from, name_to))
        }
    } else {
        Command::Unknown(string_of(&chars, from, to))
    }
}

/// The request that a command makes of the application.
pub open spec fn spec_command_to_app_event(command: CommandView) -> AppEventView {
    match command {
        CommandView::Quit => AppEventView::Quit,
        CommandView::Help => AppEventView::Help,
        CommandView::LoadFile(path) => AppEventView::LoadFile(path),
        CommandView::LoadClipboard => AppEventView::LoadClipboard,
        CommandView::Unknown(input) => AppEventView::InvalidCommand(input),
    }
}

/// Turns a command into the request that it makes of the application.
pub fn command_to_app_event(command: Command) -> (event: AppEvent)
    ensures
        event@ == spec_command_to_app_event(command@),
{
    match command {
        Command::Quit => AppEvent::Quit,
        Command::Help => AppEvent::Help,
        Command::LoadFile(path) => AppEvent::LoadFile(path),
        Command::LoadClipboard => AppEvent::LoadClipboard,
        Command::Unknown(input) => AppEvent::InvalidCommand(input),
    }
}

} // verus!
