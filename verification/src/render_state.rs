//! What the display needs to know of a reading session.

use vstd::prelude::*;
use crate::mode::AppMode;
use crate::spans::string_views;
use crate::token::Token;

verus! {

/// A snapshot of a session for the display.
pub struct RenderState {
    pub mode: AppMode,
    /// The text of the token at the cursor.
    pub current_word: Option<String>,
    pub tokens: Vec<Token>,
    pub current_index: usize,
    /// The texts of the tokens just before the cursor, in reading order.
    pub context_left: Vec<String>,
    /// The texts of the tokens just after the cursor, in reading order.
    pub context_right: Vec<String>,
    /// The position of the cursor and the number of tokens.
    pub progress: (usize, usize),
}

/// Where the context before position `index` starts: `window` tokens
/// earlier, or at the first token.
pub open spec fn context_start(index: int, window: int) -> int {
    if index > window {
        index - window
    } else {
        0
    }
}

/// Where the context after position `index` ends: `window` tokens after the
/// cursor, or at the last token.
pub open spec fn context_end(index: int, window: int, len: int) -> int {
    if index + window + 1 < len {
        index + window + 1
    } else {
        len
    }
}

/// The texts of `tokens[from..to]`; empty where the bounds are out of order
/// or outside the tokens.
pub open spec fn texts_between(tokens: Seq<Token>, from: int, to: int) -> Seq<Seq<char>> {
    if 0 <= from <= to <= tokens.len() {
        Seq::new((to - from) as nat, |i: int| tokens[from + i].text@)
    } else {
        Seq::empty()
    }
}

/// The index nearest to `index` that is at most `len`.
pub open spec fn at_most(index: int, len: int) -> int {
    if index < len {
        index
    } else {
        len
    }
}

fn texts_in(tokens: &Vec<Token>, from: usize, to: usize) -> (texts: Vec<String>)
    ensures
        string_views(texts@) == texts_between(tokens@, from as int, to as int),
{
    let mut texts: Vec<String> = Vec::new();
    if from > to || to > tokens.len() {
        assert(string_views(texts@) =~= Seq::<Seq<char>>::empty());
        return texts;
    }
    let mut i: usize = from;
    while i < to
        invariant
            from <= i <= to <= tokens@.len(),
            texts@.len() == i - from,
            forall|j: int| 0 <= j < i - from ==> (#[trigger] texts@[j])@ == tokens@[from + j].text@,
        decreases to - i,
    {
        texts.push(tokens[i].text.clone());
        i += 1;
    }
    assert(string_views(texts@) =~= texts_between(tokens@, from as int, to as int));
    texts
}

impl RenderState {
    /// The snapshot of an application that has no text loaded.
    pub fn empty(mode: AppMode) -> (state: Self)
        ensures
            state.mode == mode,
            state.current_word is None,
            state.tokens@.len() == 0,
            state.current_index == 0,
            state.context_left@.len() == 0,
            state.context_right@.len() == 0,
            state.progress == (0usize, 0usize),
    {
        RenderState {
            mode,
            current_word: None,
            tokens: Vec::new(),
            current_index: 0,
            context_left: Vec::new(),
            context_right: Vec::new(),
            progress: (0, 0),
        }
    }

    /// The snapshot of a session at `current_index`, with up to
    /// `context_window` tokens of context on either side.
    pub fn from_reading_state(
        mode: AppMode,
        tokens: Vec<Token>,
        current_index: usize,
        context_window: usize,
    ) -> (state: Self)
        ensures
            state.mode == mode,
            state.tokens == tokens,
            state.current_index == current_index,
            state.progress == (current_index, tokens@.len() as usize),
            current_index < tokens@.len() ==> (state.current_word matches Some(w) && w@
                == tokens@[current_index as int].text@),
            current_index >= tokens@.len() ==> state.current_word is None,
            string_views(state.context_left@) == texts_between(
                tokens@,
                context_start(current_index as int, context_window as int),
                at_most(current_index as int, tokens@.len() as int),
            ),
            string_views(state.context_right@) == texts_between(
                tokens@,
                current_index + 1,
                context_end(current_index as int, context_window as int, tokens@.len() as int),
            ),
    {
        let total: usize = tokens.len();
        let start: usize = if current_index > context_window {
            current_index - context_window
        } else {
            0
        };
        let left_end: usize = if current_index < total {
            current_index
        } else {
            total
        };
        let context_left = texts_in(&tokens, start, left_end);
        let end: usize = if current_index < total && context_window < total - current_index - 1 {
            current_index + context_window + 1
        } else {
            total
        };
        let context_right = if current_index < total {
            texts_in(&tokens, current_index + 1, end)
        } else {
            Vec::new()
        };
        assert(string_views(context_right@) =~= texts_between(
            tokens@,
            current_index + 1,
            context_end(current_index as int, context_window as int, tokens@.len() as int),
        ));
        let current_word: Option<String> = if current_index < total {
            Some(tokens[current_index].text.clone())
        } else {
            None
        };
        RenderState {
            mode,
            current_word,
            tokens,
            current_index,
            context_left,
            context_right,
            progress: (current_index, total),
        }
    }
}

} // verus!
