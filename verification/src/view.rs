//! What the cell display shows beside the word: the padding before it, the
//! progress bar, the words around it and the line of the command deck.

use vstd::prelude::*;
use vstd::string::StringExecFns;
use crate::mode::AppMode;
use crate::render_state::{at_most, context_end, context_start};
use crate::token::Token;

verus! {

/// The anchor column of the word display: the anchor of no word lies
/// further right in its word.
pub const ANCHOR_COLUMN: usize = 3;

/// How many cells the progress bar has.
pub const PROGRESS_CELLS: usize = 20;

/// How many blanks stand before a word so that its anchor falls in the
/// anchor column.
pub open spec fn spec_left_padding(anchor_position: int) -> int {
    if anchor_position >= 3 {
        0
    } else {
        3 - anchor_position
    }
}

/// The number of blanks before a word with the given anchor.
pub fn left_padding(anchor_position: usize) -> (padding: usize)
    ensures
        padding == spec_left_padding(anchor_position as int),
{
    if anchor_position >= ANCHOR_COLUMN {
        0
    } else {
        ANCHOR_COLUMN - anchor_position
    }
}

/// How many of the 20 cells of the progress bar are filled when `current`
/// of `total` tokens are read: the share of the tokens read, rounded down,
/// none where there are no tokens, and never more than all.
pub open spec fn spec_filled_cells(current: int, total: int) -> int {
    if total <= 0 {
        0
    } else if current >= total {
        20
    } else {
        current * 20 / total
    }
}

/// The filled and the empty cells of the progress bar.
pub fn progress_cells(progress: (usize, usize)) -> (cells: (usize, usize))
    ensures
        cells.0 == spec_filled_cells(progress.0 as int, progress.1 as int),
        cells.0 + cells.1 == 20,
{
    let (current, total) = progress;
    if total == 0 {
        return (0, PROGRESS_CELLS);
    }
    if current >= total {
        return (PROGRESS_CELLS, 0);
    }
    let share: u128 = (current as u128) * 20 / (total as u128);
    assert(share < 20) by (nonlinear_arith)
        requires
            0 <= current < total,
            share == (current * 20) / (total as int),
    ;
    let filled: usize = share as usize;
    (filled, PROGRESS_CELLS - filled)
}

/// A token as it was written: its text followed by its marks.
pub open spec fn written(token: Token) -> Seq<char> {
    token.text@ + token.punctuation@
}

/// The tokens from `from` up to `to` as they were written, with a blank
/// between one and the next.
pub open spec fn spec_context_text(tokens: Seq<Token>, from: int, to: int) -> Seq<char>
    decreases to - from,
{
    if from >= to || from < 0 || to > tokens.len() {
        Seq::empty()
    } else if from + 1 == to {
        written(tokens[from])
    } else {
        spec_context_text(tokens, from, to - 1) + seq![' '] + written(tokens[to - 1])
    }
}

/// The text of `tokens[from..to]`; empty where the bounds are out of order
/// or outside the tokens.
pub fn context_text(tokens: &Vec<Token>, from: usize, to: usize) -> (text: String)
    ensures
        text@ == spec_context_text(tokens@, from as int, to as int),
{
    let mut text = String::new();
    if from >= to || to > tokens.len() {
        return text;
    }
    let mut i: usize = from;
    while i < to
        invariant
            from <= i <= to <= tokens@.len(),
            from < to,
            text@ == spec_context_text(tokens@, from as int, i as int),
        decreases to - i,
    {
        if i > from {
            text.push(' ');
        } else {
            text = String::new();
        }
        text.append(tokens[i].text.as_str());
        let marks = &tokens[i].punctuation;
        let ghost so_far = text@;
        let mut j: usize = 0;
        while j < marks.len()
            invariant
                j <= marks@.len(),
                text@ == so_far + marks@.subrange(0, j as int),
            decreases marks@.len() - j,
        {
            text.push(marks[j]);
            assert((so_far + marks@.subrange(0, j as int)).push(marks@[j as int]) =~= so_far
                + marks@.subrange(0, j + 1));
            j += 1;
        }
        proof {
            assert(marks@.subrange(0, j as int) =~= marks@);
            if i > from {
                assert(text@ =~= spec_context_text(tokens@, from as int, i as int) + seq![' ']
                    + written(tokens@[i as int]));
            } else {
                assert(text@ =~= written(tokens@[i as int]));
            }
        }
        i += 1;
    }
    text
}

/// The words just before the token at `current`, up to `window` of them.
pub fn context_left_text(tokens: &Vec<Token>, current: usize, window: usize) -> (text: String)
    ensures
        text@ == spec_context_text(
            tokens@,
            context_start(current as int, window as int),
            at_most(current as int, tokens@.len() as int),
        ),
{
    let start: usize = if current > window {
        current - window
    } else {
        0
    };
    let end: usize = if current < tokens.len() {
        current
    } else {
        tokens.len()
    };
    context_text(tokens, start, end)
}

/// The words just after the token at `current`, up to `window` of them.
pub fn context_right_text(tokens: &Vec<Token>, current: usize, window: usize) -> (text: String)
    ensures
        text@ == spec_context_text(
            tokens@,
            current + 1,
            context_end(current as int, window as int, tokens@.len() as int),
        ),
{
    let total: usize = tokens.len();
    if current >= total {
        return context_text(tokens, total, total);
    }
    let end: usize = if window < total - current - 1 {
        current + window + 1
    } else {
        total
    };
    context_text(tokens, current + 1, end)
}

/// The name of a mode as the command deck shows it.
pub open spec fn spec_mode_indicator(mode: AppMode) -> Seq<char> {
    match mode {
        AppMode::Repl => " COMMAND "@,
        AppMode::Reading => " READING "@,
        AppMode::Paused => " PAUSED "@,
        AppMode::Peek => " PEEK "@,
        AppMode::Quit => " QUIT "@,
    }
}

/// The line of the command deck: the mode, then the commands.
pub fn command_deck_text(mode: AppMode) -> (text: String)
    ensures
        text@ == spec_mode_indicator(mode) + " Type @file.pdf, @@, or :q"@,
{
    let indicator: &str = match mode {
        AppMode::Repl => " COMMAND ",
        AppMode::Reading => " READING ",
        AppMode::Paused => " PAUSED ",
        AppMode::Peek => " PEEK ",
        AppMode::Quit => " QUIT ",
    };
    String::from_str(indicator).concat(" Type @file.pdf, @@, or :q")
}

} // verus!
