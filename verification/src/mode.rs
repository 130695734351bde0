//! The modes of the application.

use vstd::prelude::*;

verus! {

/// What the application is doing.
#[derive(Clone, Copy, Debug, PartialEq, Eq, Structural)]
pub enum AppMode {
    /// Waiting for a command.
    Repl,
    /// Showing words at the reading speed.
    Reading,
    /// Holding the current word.
    Paused,
    /// Looking at the surrounding text.
    Peek,
    /// Leaving.
    Quit,
}

impl Default for AppMode {
    fn default() -> (mode: Self)
        ensures
            mode == AppMode::Repl,
    {
        AppMode::Repl
    }
}

} // verus!
