//! The decisions of the main loop: what a key or the passing of the word's
//! time does to the application and to the line that is being typed.

use vstd::prelude::*;
use vstd::string::StringExecFns;
use crate::app::App;
use crate::command::{parse_command, spec_parse_command, Command, CommandView};
use crate::mode::AppMode;
use crate::state::spec_token_duration;
use crate::timing::{spec_wpm_to_milliseconds, wpm_to_milliseconds};

verus! {

/// A key as the loop sees it.
#[derive(Debug, Clone, Copy, PartialEq, Eq)]
pub enum Key {
    Char(char),
    Enter,
    Backspace,
    Esc,
    /// The interrupt key.
    CtrlC,
    /// Any other key.
    Other,
}

/// What the loop waited for.
#[derive(Debug, Clone, Copy, PartialEq, Eq)]
pub enum LoopEvent {
    /// A key was pressed.
    Key(Key),
    /// The time of the current word has passed without a key.
    Timeout,
}

/// What the caller does after an event was handled.
#[derive(Debug, Clone, PartialEq)]
pub enum LoopAction {
    /// Go on with the loop.
    Continue,
    /// Leave the loop.
    Quit,
    /// Load the file at this path and start reading it.
    LoadFile(String),
    /// Load the clipboard and start reading it.
    LoadClipboard,
    /// Show this line to the user.
    Show(String),
}

/// The mathematical value of a [`LoopAction`].
pub enum LoopActionView {
    Continue,
    Quit,
    LoadFile(Seq<char>),
    LoadClipboard,
    Show(Seq<char>),
}

impl View for LoopAction {
    type V = LoopActionView;

    open spec fn view(&self) -> LoopActionView {
        match self {
            LoopAction::Continue => LoopActionView::Continue,
            LoopAction::Quit => LoopActionView::Quit,
            LoopAction::LoadFile(path) => LoopActionView::LoadFile(path@),
            LoopAction::LoadClipboard => LoopActionView::LoadClipboard,
            LoopAction::Show(line) => LoopActionView::Show(line@),
        }
    }
}

/// Whether a session is on screen: it is being read or is paused.
pub open spec fn in_session(mode: AppMode) -> bool {
    mode == AppMode::Reading || mode == AppMode::Paused
}

/// What the line `typed` asks for when it is entered.
pub open spec fn entered_action(typed: Seq<char>) -> LoopActionView {
    match spec_parse_command(typed) {
        CommandView::LoadFile(path) => LoopActionView::LoadFile(path),
        CommandView::LoadClipboard => LoopActionView::LoadClipboard,
        CommandView::Quit => LoopActionView::Quit,
        CommandView::Help => LoopActionView::Continue,
        CommandView::Unknown(_) => LoopActionView::Show("Unknown command: "@ + typed),
    }
}

/// One step of the loop, from the application `before` and the line `typed`
/// to the application `after`, the line `left` and the action.
///
/// The interrupt key quits. At the command line a character is added to the
/// line, the backspace key takes the last one away, and the enter key
/// carries out a line that is not empty and clears it. In a session a
/// character is a session key, and the escape key goes back to the command
/// line. When the time of the word has passed, a session that is being read
/// moves on.
pub open spec fn loop_step(
    before: App,
    typed: Seq<char>,
    event: LoopEvent,
    after: App,
    left: Seq<char>,
    action: LoopActionView,
) -> bool {
    match event {
        LoopEvent::Timeout => {
            &&& left == typed
            &&& action == LoopActionView::Continue
            &&& if before.mode == AppMode::Reading {
                exists|moved: bool| App::advance_outcome(before, after, moved)
            } else {
                after == before
            }
        },
        LoopEvent::Key(Key::CtrlC) => {
            &&& after.mode == AppMode::Quit
            &&& after.reading_state == before.reading_state
            &&& left == typed
            &&& action == LoopActionView::Quit
        },
        LoopEvent::Key(Key::Char(c)) => {
            &&& action == LoopActionView::Continue
            &&& if before.mode == AppMode::Repl {
                after == before && left == typed.push(c)
            } else {
                left == typed && exists|handled: bool|
                    App::keypress_outcome(before, c, after, handled)
            }
        },
        LoopEvent::Key(Key::Enter) => {
            if before.mode == AppMode::Repl && typed.len() > 0 {
                &&& left.len() == 0
                &&& action == entered_action(typed)
                &&& after.reading_state == before.reading_state
                &&& after.mode == (if action == LoopActionView::Quit {
                    AppMode::Quit
                } else {
                    before.mode
                })
            } else {
                after == before && left == typed && action == LoopActionView::Continue
            }
        },
        LoopEvent::Key(Key::Backspace) => {
            &&& after == before
            &&& action == LoopActionView::Continue
            &&& left == (if before.mode == AppMode::Repl && typed.len() > 0 {
                typed.drop_last()
            } else {
                typed
            })
        },
        LoopEvent::Key(Key::Esc) => {
            &&& action == LoopActionView::Continue
            &&& after.reading_state == before.reading_state
            &&& if in_session(before.mode) {
                after.mode == AppMode::Repl && left.len() == 0
            } else {
                after.mode == before.mode && left == typed
            }
        },
        LoopEvent::Key(Key::Other) => {
            after == before && left == typed && action == LoopActionView::Continue
        },
    }
}

/// How long the loop waits for a key, in milliseconds: as long as the token
/// at the cursor stays on screen, and the base delay of a word at the
/// current speed where there is no such token.
pub open spec fn spec_poll_timeout(app: App) -> int {
    match app.reading_state {
        Some(state) => if state.current_index < state.tokens@.len() {
            spec_token_duration(state.config, state.wpm, state.tokens@[state.current_index as int]@)
        } else {
            spec_wpm_to_milliseconds(state.wpm)
        },
        None => spec_wpm_to_milliseconds(300),
    }
}

/// How long the loop waits for a key before it moves on.
pub fn poll_timeout_ms(app: &App) -> (ms: u64)
    ensures
        ms == spec_poll_timeout(*app),
{
    match &app.reading_state {
        Some(state) => {
            if state.current_index < state.tokens.len() {
                state.current_token_duration()
            } else {
                wpm_to_milliseconds(state.wpm)
            }
        },
        None => wpm_to_milliseconds(app.get_wpm()),
    }
}

/// Handles one event of the loop.
pub fn handle_loop_event(app: &mut App, command_buffer: &mut String, event: LoopEvent) -> (action:
    LoopAction)
    ensures
        loop_step(
            *old(app),
            old(command_buffer)@,
            event,
            *final(app),
            final(command_buffer)@,
            action@,
        ),
{
    let at_command_line: bool = match app.mode {
        AppMode::Repl => true,
        _ => false,
    };
    match event {
        LoopEvent::Timeout => {
            match app.mode {
                AppMode::Reading => {
                    let _ = app.advance_reading();
                },
                _ => {},
            }
            LoopAction::Continue
        },
        LoopEvent::Key(Key::CtrlC) => {
            app.set_mode(AppMode::Quit);
            LoopAction::Quit
        },
        LoopEvent::Key(Key::Char(c)) => {
            if at_command_line {
                command_buffer.push(c);
            } else {
                let _ = app.handle_keypress(c);
            }
            LoopAction::Continue
        },
        LoopEvent::Key(Key::Enter) => {
            if at_command_line && command_buffer.as_str().unicode_len() > 0 {
                let command = parse_command(command_buffer.as_str());
                let action = match command {
                    Command::LoadFile(path) => LoopAction::LoadFile(path),
                    Command::LoadClipboard => LoopAction::LoadClipboard,
                    Command::Quit => {
                        app.set_mode(AppMode::Quit);
                        LoopAction::Quit
                    },
                    Command::Help => LoopAction::Continue,
                    Command::Unknown(_) => LoopAction::Show(
                        String::from_str("Unknown command: ").concat(command_buffer.as_str()),
                    ),
                };
                *command_buffer = String::new();
                action
            } else {
                LoopAction::Continue
            }
        },
        LoopEvent::Key(Key::Backspace) => {
            if at_command_line {
                let _ = command_buffer.pop();
            }
            LoopAction::Continue
        },
        LoopEvent::Key(Key::Esc) => {
            let reading: bool = match app.mode {
                AppMode::Reading => true,
                AppMode::Paused => true,
                _ => false,
            };
            if reading {
                app.set_mode(AppMode::Repl);
                *command_buffer = String::new();
            }
            LoopAction::Continue
        },
        LoopEvent::Key(Key::Other) => LoopAction::Continue,
    }
}

} // verus!
