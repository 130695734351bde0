//! What the command line asks of the application.

use vstd::prelude::*;

verus! {

/// A request to the application.
#[derive(Debug, PartialEq, Clone)]
pub enum AppEvent {
    LoadFile(String),
    LoadClipboard,
    Quit,
    Help,
    Warning(String),
    InvalidCommand(String),
    /// Nothing is asked.
    Idle,
}

/// The mathematical value of an [`AppEvent`].
pub enum AppEventView {
    LoadFile(Seq<char>),
    LoadClipboard,
    Quit,
    Help,
    Warning(Seq<char>),
    InvalidCommand(Seq<char>),
    Idle,
}

impl View for AppEvent {
    type V = AppEventView;

    open spec fn view(&self) -> AppEventView {
        match self {
            AppEvent::LoadFile(path) => AppEventView::LoadFile(path@),
            AppEvent::LoadClipboard => AppEventView::LoadClipboard,
            AppEvent::Quit => AppEventView::Quit,
            AppEvent::Help => AppEventView::Help,
            AppEvent::Warning(msg) => AppEventView::Warning(msg@),
            AppEvent::InvalidCommand(input) => AppEventView::InvalidCommand(input@),
            AppEvent::Idle => AppEventView::Idle,
        }
    }
}

} // verus!
