//! The application: its mode, the reading session, and what keys and
//! requests do to them.

use vstd::prelude::*;
use vstd::string::StringExecFns;
use crate::config::TimingConfig;
use crate::event::{AppEvent, AppEventView};
use crate::input::{LoadError, LoadedDocument};
use crate::mode::AppMode;
use crate::render_state::{at_most, context_end, context_start, texts_between, RenderState};
use crate::spans::string_views;
use crate::state::{
    clamp, is_next_sentence_start, is_previous_sentence_start, no_sentence_start_after,
    no_sentence_start_before, ReadingState,
};
use crate::text::{append_decimal, decimal};
use crate::token::{token_views, Token};
use crate::tokenizer::{spec_tokenize, tokenize_text};

verus! {

/// The speed of a session that starts from a loaded document.
pub const DEFAULT_WPM: u32 = 300;

/// How many tokens of context the display shows on either side.
pub const CONTEXT_WINDOW: usize = 3;

/// What the caller has to do after a request was handled.
#[derive(Debug, Clone, PartialEq)]
pub enum EventAction {
    /// Nothing is left to do.
    Nothing,
    /// Load the file at this path, then hand the document or the error back.
    LoadFile(String),
    /// Load the clipboard, then hand the document or the error back.
    LoadClipboard,
    /// Show this line to the user.
    Show(String),
}

/// The mathematical value of an [`EventAction`].
pub enum EventActionView {
    Nothing,
    LoadFile(Seq<char>),
    LoadClipboard,
    Show(Seq<char>),
}

impl View for EventAction {
    type V = EventActionView;

    open spec fn view(&self) -> EventActionView {
        match self {
            EventAction::Nothing => EventActionView::Nothing,
            EventAction::LoadFile(path) => EventActionView::LoadFile(path@),
            EventAction::LoadClipboard => EventActionView::LoadClipboard,
            EventAction::Show(line) => EventActionView::Show(line@),
        }
    }
}

/// What is left to do for a request.
pub open spec fn spec_event_action(event: AppEventView) -> EventActionView {
    match event {
        AppEventView::Quit => EventActionView::Nothing,
        AppEventView::Help => EventActionView::Nothing,
        AppEventView::LoadFile(path) => EventActionView::LoadFile(path),
        AppEventView::LoadClipboard => EventActionView::LoadClipboard,
        AppEventView::Warning(msg) => EventActionView::Show("Warning: "@ + msg),
        AppEventView::InvalidCommand(input) => EventActionView::Show("Unknown command: "@ + input),
        AppEventView::Idle => EventActionView::Nothing,
    }
}

/// The mode after a press of the pause key.
pub open spec fn toggled(mode: AppMode) -> AppMode {
    match mode {
        AppMode::Reading => AppMode::Paused,
        AppMode::Paused => AppMode::Reading,
        _ => mode,
    }
}

/// The keys that a reading session answers to.
pub open spec fn is_session_key(key: char) -> bool {
    ||| key == 'j'
    ||| key == 'J'
    ||| key == 'k'
    ||| key == 'K'
    ||| key == '['
    ||| key == ']'
    ||| key == ' '
    ||| key == 'q'
    ||| key == 'Q'
}

/// The application.
pub struct App {
    pub mode: AppMode,
    /// The session, once a text was loaded.
    pub reading_state: Option<ReadingState>,
}

impl App {
    /// Whether keys reach the session: there is one, and it is being read
    /// or is paused.
    pub open spec fn accepts_keys(&self) -> bool {
        (self.mode == AppMode::Reading || self.mode == AppMode::Paused) && self.reading_state
            is Some
    }

    /// An application that waits for a command and has no text.
    pub fn new() -> (app: Self)
        ensures
            app.mode == AppMode::Repl,
            app.reading_state is None,
    {
        App { mode: AppMode::Repl, reading_state: None }
    }

    /// Starts a session on `text` at `wpm` words per minute.
    pub fn start_reading(&mut self, text: &str, wpm: u32)
        ensures
            final(self).mode == AppMode::Reading,
            final(self).reading_state matches Some(state) && token_views(state.tokens@)
                == spec_tokenize(text@) && state.current_index == 0 && state.wpm == wpm
                && state.config == TimingConfig::spec_default() && state.well_formed(),
    {
        let tokens = tokenize_text(text);
        self.reading_state = Some(ReadingState::new_with_default_config(tokens, wpm));
        self.mode = AppMode::Reading;
    }

    /// Starts a session on a loaded document at the default speed, and says
    /// what was loaded.
    pub fn apply_loaded_document(&mut self, document: LoadedDocument) -> (notice: String)
        ensures
            final(self).mode == AppMode::Reading,
            final(self).reading_state matches Some(state) && state.tokens == document.tokens
                && state.current_index == 0 && state.wpm == 300 && state.config
                == TimingConfig::spec_default() && state.well_formed(),
            notice@ == "Loaded: "@ + document.source@ + " ("@ + decimal(
                document.tokens@.len() as nat,
            ) + " words)"@,
    {
        let LoadedDocument { tokens, source } = document;
        let mut notice = String::from_str("Loaded: ");
        notice.append(source.as_str());
        notice.append(" (");
        append_decimal(&mut notice, tokens.len() as u64);
        notice.append(" words)");
        self.reading_state = Some(ReadingState::new_with_default_config(tokens, DEFAULT_WPM));
        self.mode = AppMode::Reading;
        notice
    }

    /// What the user is told of a document that could not be loaded.
    pub fn handle_load_error(&self, error: &LoadError) -> (notice: String)
        ensures
            notice@ == "Error: "@ + error.description(),
    {
        let text = error.to_string();
        String::from_str("Error: ").concat(text.as_str())
    }

    /// What `advance_reading` does: the session moves to its next token,
    /// unless it is at the last one or there is no session; `moved` says
    /// whether it moved.
    pub open spec fn advance_outcome(before: App, after: App, moved: bool) -> bool {
        &&& after.mode == before.mode
        &&& match before.reading_state {
            Some(was) => after.reading_state matches Some(is) && is.tokens == was.tokens && is.wpm
                == was.wpm && is.config == was.config && moved == (was.current_index + 1
                < was.tokens@.len()) && is.current_index == (if moved {
                was.current_index + 1
            } else {
                was.current_index as int
            }),
            None => !moved && after.reading_state is None,
        }
    }

    /// Moves the session to its next token. The result says whether it
    /// moved: not at the last token, and not without a session.
    pub fn advance_reading(&mut self) -> (moved: bool)
        ensures
            Self::advance_outcome(*old(self), *final(self), moved),
    {
        match self.reading_state.take() {
            Some(mut state) => {
                let before: usize = state.current_index;
                state.advance();
                let moved: bool = state.current_index > before;
                self.reading_state = Some(state);
                moved
            },
            None => false,
        }
    }

    /// Pauses a session that is being read and resumes one that is paused.
    pub fn toggle_pause(&mut self)
        ensures
            final(self).mode == toggled(old(self).mode),
            final(self).reading_state == old(self).reading_state,
    {
        match self.mode {
            AppMode::Reading => {
                self.mode = AppMode::Paused;
            },
            AppMode::Paused => {
                self.mode = AppMode::Reading;
            },
            _ => {},
        }
    }

    /// Handles a request. Quitting changes the mode; loading and showing are
    /// left to the caller, as the result says.
    pub fn handle_event(&mut self, event: AppEvent) -> (action: EventAction)
        ensures
            action@ == spec_event_action(event@),
            final(self).mode == (if event is Quit {
                AppMode::Quit
            } else {
                old(self).mode
            }),
            final(self).reading_state == old(self).reading_state,
    {
        match event {
            AppEvent::Quit => {
                self.mode = AppMode::Quit;
                EventAction::Nothing
            },
            AppEvent::Help => EventAction::Nothing,
            AppEvent::LoadFile(path) => EventAction::LoadFile(path),
            AppEvent::LoadClipboard => EventAction::LoadClipboard,
            AppEvent::Warning(msg) => EventAction::Show(
                String::from_str("Warning: ").concat(msg.as_str()),
            ),
            AppEvent::InvalidCommand(input) => EventAction::Show(
                String::from_str("Unknown command: ").concat(input.as_str()),
            ),
            AppEvent::Idle => EventAction::Nothing,
        }
    }

    /// Goes back to reading; an error where there is no session.
    pub fn resume_reading(&mut self) -> (result: Result<(), String>)
        ensures
            final(self).reading_state == old(self).reading_state,
            old(self).reading_state is Some ==> result is Ok && final(self).mode
                == AppMode::Reading,
            old(self).reading_state is None ==> (result matches Err(msg) && msg@
                == "No reading session to resume"@) && final(self).mode == old(self).mode,
    {
        if self.reading_state.is_some() {
            self.mode = AppMode::Reading;
            Ok(())
        } else {
            Err(String::from_str("No reading session to resume"))
        }
    }

    /// The current mode.
    pub fn mode(&self) -> (mode: AppMode)
        ensures
            mode == self.mode,
    {
        self.mode
    }

    /// Sets the mode.
    pub fn set_mode(&mut self, mode: AppMode)
        ensures
            final(self).mode == mode,
            final(self).reading_state == old(self).reading_state,
    {
        self.mode = mode;
    }

    /// The speed of the session, or the default speed without one.
    pub fn get_wpm(&self) -> (wpm: u32)
        ensures
            wpm == (match self.reading_state {
                Some(state) => state.wpm,
                None => 300,
            }),
    {
        match &self.reading_state {
            Some(state) => state.wpm,
            None => DEFAULT_WPM,
        }
    }

    /// A snapshot for the display, with three tokens of context on either
    /// side of the cursor.
    pub fn get_render_state(&self) -> (snapshot: RenderState)
        ensures
            snapshot.mode == self.mode,
            string_views(snapshot.context_left@) == texts_between(
                snapshot.tokens@,
                context_start(snapshot.current_index as int, 3),
                at_most(snapshot.current_index as int, snapshot.tokens@.len() as int),
            ),
            string_views(snapshot.context_right@) == texts_between(
                snapshot.tokens@,
                snapshot.current_index + 1,
                context_end(snapshot.current_index as int, 3, snapshot.tokens@.len() as int),
            ),
            match self.reading_state {
                Some(state) => token_views(snapshot.tokens@) == token_views(state.tokens@)
                    && snapshot.current_index == state.current_index && snapshot.progress == (
                    state.current_index,
                    state.tokens@.len() as usize,
                ) && (state.current_index < state.tokens@.len() ==> (
                snapshot.current_word matches Some(w) && w@
                    == state.tokens@[state.current_index as int].text@)) && (state.current_index
                    >= state.tokens@.len() ==> snapshot.current_word is None),
                None => snapshot.current_word is None && snapshot.tokens@.len() == 0
                    && snapshot.current_index == 0 && snapshot.progress == (0usize, 0usize)
                    && snapshot.context_left@.len() == 0 && snapshot.context_right@.len() == 0,
            },
    {
        match &self.reading_state {
            Some(state) => {
                let mut tokens: Vec<Token> = Vec::new();
                let mut i: usize = 0;
                while i < state.tokens.len()
                    invariant
                        i <= state.tokens@.len(),
                        tokens@.len() == i,
                        forall|j: int| 0 <= j < i ==> (#[trigger] tokens@[j])@ == state.tokens@[j]@,
                    decreases state.tokens@.len() - i,
                {
                    tokens.push(state.tokens[i].duplicate());
                    i += 1;
                }
                assert(token_views(tokens@) =~= token_views(state.tokens@));
                RenderState::from_reading_state(
                    self.mode,
                    tokens,
                    state.current_index,
                    CONTEXT_WINDOW,
                )
            },
            None => {
                let snapshot = RenderState::empty(self.mode);
                assert(string_views(snapshot.context_left@) =~= Seq::<Seq<char>>::empty());
                assert(string_views(snapshot.context_right@) =~= Seq::<Seq<char>>::empty());
                snapshot
            },
        }
    }

    /// What `handle_keypress` does. Keys count only while a session is being
    /// read or is paused: `j` and `k` jump to the next and the previous
    /// sentence, `[` and `]` change the speed by 50 words per minute, the
    /// space bar pauses and resumes, `q` goes back to the command line.
    /// `handled` says whether the key was taken.
    pub open spec fn keypress_outcome(before: App, key: char, after: App, handled: bool) -> bool {
        &&& handled == (before.accepts_keys() && is_session_key(key))
        &&& !handled ==> after.mode == before.mode && after.reading_state == before.reading_state
        &&& handled ==> after.mode == (if key == ' ' {
            toggled(before.mode)
        } else if key == 'q' || key == 'Q' {
            AppMode::Repl
        } else {
            before.mode
        })
        &&& handled ==> (after.reading_state matches Some(is) && {
            let was = before.reading_state->0;
            &&& is.tokens == was.tokens
            &&& is.config == was.config
            &&& is.wpm == (if key == '[' {
                clamp(was.wpm - 50, was.config.min_wpm as int, was.config.max_wpm as int)
            } else if key == ']' {
                clamp(was.wpm + 50, was.config.min_wpm as int, was.config.max_wpm as int)
            } else {
                was.wpm as int
            })
            &&& (key == 'j' || key == 'J' ==> if no_sentence_start_after(
                was.tokens@,
                was.current_index as int,
            ) {
                is.current_index == was.current_index
            } else {
                is_next_sentence_start(
                    was.tokens@,
                    was.current_index as int,
                    is.current_index as int,
                )
            })
            &&& (key == 'k' || key == 'K' ==> if no_sentence_start_before(
                was.tokens@,
                was.current_index as int,
            ) {
                is.current_index == was.current_index
            } else {
                is_previous_sentence_start(
                    was.tokens@,
                    was.current_index as int,
                    is.current_index as int,
                )
            })
            &&& (!(key == 'j' || key == 'J' || key == 'k' || key == 'K') ==> is.current_index
                == was.current_index)
        })
    }

    /// Handles a key; the result says whether the key was taken.
    pub fn handle_keypress(&mut self, key: char) -> (handled: bool)
        ensures
            Self::keypress_outcome(*old(self), key, *final(self), handled),
    {
        let in_session: bool = match self.mode {
            AppMode::Reading => true,
            AppMode::Paused => true,
            _ => false,
        };
        if !in_session || self.reading_state.is_none() {
            return false;
        }
        let known: bool = key == 'j' || key == 'J' || key == 'k' || key == 'K' || key == '['
            || key == ']' || key == ' ' || key == 'q' || key == 'Q';
        if !known {
            return false;
        }
        if key == ' ' {
            self.toggle_pause();
            return true;
        }
        if key == 'q' || key == 'Q' {
            self.mode = AppMode::Repl;
            return true;
        }
        match self.reading_state.take() {
            Some(mut state) => {
                if key == 'j' || key == 'J' {
                    let _ = state.jump_to_next_sentence();
                } else if key == 'k' || key == 'K' {
                    let _ = state.jump_to_previous_sentence();
                } else if key == '[' {
                    state.adjust_wpm(-50);
                } else {
                    state.adjust_wpm(50);
                }
                self.reading_state = Some(state);
            },
            None => {},
        }
        true
    }
}

} // verus!
