//! The first prompt: every line that is no command names a file.

use vstd::prelude::*;
use crate::text::{chars_of, copy_range, spells, string_of, trim_range, trimmed};

verus! {

/// A command typed at the first prompt.
#[derive(Debug, Clone, PartialEq)]
pub enum ReplCommand {
    LoadFile(String),
    LoadClipboard,
    Quit,
    Help,
}

/// The mathematical value of a [`ReplCommand`].
pub enum ReplCommandView {
    LoadFile(Seq<char>),
    LoadClipboard,
    Quit,
    Help,
}

impl View for ReplCommand {
    type V = ReplCommandView;

    open spec fn view(&self) -> ReplCommandView {
        match self {
            ReplCommand::LoadFile(path) => ReplCommandView::LoadFile(path@),
            ReplCommand::LoadClipboard => ReplCommandView::LoadClipboard,
            ReplCommand::Quit => ReplCommandView::Quit,
            ReplCommand::Help => ReplCommandView::Help,
        }
    }
}

/// The command that a line stands for, the white space around it not
/// counted: a line that starts with `@@` loads the clipboard; `@` followed by
/// at least one character loads the file named after the `@`; `:q`, `:quit`,
/// `:h` and `:help` are commands; every other line names a file.
pub open spec fn spec_parse_repl_input(input: Seq<char>) -> ReplCommandView {
    let line = trimmed(input);
    if line.len() >= 2 && line[0] == '@' && line[1] == '@' {
        ReplCommandView::LoadClipboard
    } else if line.len() > 1 && line[0] == '@' {
        ReplCommandView::LoadFile(line.drop_first())
    } else if line == ":q"@ || line == ":quit"@ {
        ReplCommandView::Quit
    } else if line == ":h"@ || line == ":help"@ {
        ReplCommandView::Help
    } else {
        ReplCommandView::LoadFile(line)
    }
}

/// Reads one line of the first prompt.
pub fn parse_repl_input(input: &str) -> (command: ReplCommand)
    ensures
        command@ == spec_parse_repl_input(input@),
{
    let chars = chars_of(input);
    let n: usize = chars.len();
    assert(chars@.subrange(0, n as int) =~= chars@);
    let (from, to) = trim_range(&chars, 0, n);
    let ghost line = chars@.subrange(from as int, to as int);
    if to - from >= 2 {
        assert(line[0] == chars@[from as int]);
        assert(line[1] == chars@[from + 1]);
        if chars[from] == '@' && chars[from + 1] == '@' {
            return ReplCommand::LoadClipboard;
        }
        if chars[from] == '@' {
            assert(line.drop_first() =~= chars@.subrange(from + 1, to as int));
            return ReplCommand::LoadFile(string_of(&chars, from + 1, to));
        }
    }
    let whole = copy_range(&chars, from, to);
    if spells(&whole, ":q") || spells(&whole, ":quit") {
        ReplCommand::Quit
    } else if spells(&whole, ":h") || spells(&whole, ":help") {
        ReplCommand::Help
    } else {
        ReplCommand::LoadFile(string_of(&chars, from, to))
    }
}

} // verus!
