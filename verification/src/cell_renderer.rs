//! The character-cell renderer: the anchor is placed on the nearest cell.

use vstd::prelude::*;
use crate::renderer::{anchor_out_of_bounds, out_of_bounds_message, RendererError, RsvpRenderer};
use crate::text::{chars_of, string_of};

verus! {

/// The number of terminal columns that `text` takes when displayed.
pub uninterp spec fn display_width(text: Seq<char>) -> nat;

/// `unicode_width::UnicodeWidthStr::width`: the displayed width of a string
/// in columns. Nothing is claimed of the value but that it is a function of
/// the string.
#[verifier::external_body]
fn str_display_width(text: &str) -> (width: usize)
    ensures
        width == display_width(text@),
{
    unicode_width::UnicodeWidthStr::width(text)
}

/// The column at which a word starts so that its anchor stands at
/// `center_col`: the centre less the width of what precedes the anchor, and
/// 0 where that would lie left of the screen.
pub open spec fn spec_start_column(center_col: int, prefix_width: int) -> int {
    if prefix_width >= center_col {
        0
    } else {
        center_col - prefix_width
    }
}

/// The start column for a prefix that is `prefix_width` columns wide.
pub fn start_column_for(center_col: u16, prefix_width: usize) -> (column: u16)
    ensures
        column == spec_start_column(center_col as int, prefix_width as int),
{
    if prefix_width >= center_col as usize {
        0
    } else {
        center_col - (prefix_width as u16)
    }
}

/// A renderer that keeps the word to show for a cell-based display.
pub struct CellRenderer {
    /// The terminal size in cells: columns, rows.
    pub terminal_size: (u16, u16),
    /// The word on display with its anchor position.
    pub current_word_state: Option<(String, usize)>,
}

impl CellRenderer {
    /// A renderer for a terminal of 80 by 24 cells, with no word on display.
    pub fn new() -> (renderer: Self)
        ensures
            renderer.terminal_size == (80u16, 24u16),
            renderer.current_word_state is None,
    {
        CellRenderer { terminal_size: (80, 24), current_word_state: None }
    }

    /// Records the size of the terminal.
    pub fn update_terminal_size(&mut self, width: u16, height: u16)
        ensures
            final(self).terminal_size == (width, height),
            final(self).current_word_state == old(self).current_word_state,
    {
        self.terminal_size = (width, height);
    }

    /// The row on which the word is shown: the middle row.
    pub fn get_center_row(&self) -> (row: u16)
        ensures
            row == self.terminal_size.1 / 2,
    {
        self.terminal_size.1 / 2
    }

    /// The word on display, if there is one.
    pub fn get_current_word(&self) -> (word: Option<&str>)
        ensures
            match self.current_word_state {
                Some(state) => word matches Some(w) && w@ == state.0@,
                None => word is None,
            },
    {
        match &self.current_word_state {
            Some(state) => Some(state.0.as_str()),
            None => None,
        }
    }

    /// The word on display with its anchor position, if there is one.
    pub fn get_current_word_state(&self) -> (state: Option<(&str, usize)>)
        ensures
            match self.current_word_state {
                Some(held) => state matches Some(s) && s.0@ == held.0@ && s.1 == held.1,
                None => state is None,
            },
    {
        match &self.current_word_state {
            Some(state) => Some((state.0.as_str(), state.1)),
            None => None,
        }
    }

    /// The column at which `word` starts so that the character at
    /// `anchor_position` stands in the middle column.
    pub fn calculate_start_column(&self, word: &str, anchor_position: usize) -> (result: Result<
        u16,
        RendererError,
    >)
        ensures
            anchor_position < word@.len() ==> result == Ok::<u16, RendererError>(
                spec_start_column(
                    (self.terminal_size.0 / 2) as int,
                    display_width(word@.subrange(0, anchor_position as int)) as int,
                ) as u16,
            ),
            anchor_position >= word@.len() ==> (result matches Err(
                RendererError::InvalidArguments(msg),
            ) && msg@ == out_of_bounds_message(anchor_position as nat, word@, word@.len())),
    {
        let chars = chars_of(word);
        if anchor_position >= chars.len() {
            return Err(anchor_out_of_bounds(anchor_position, word, chars.len()));
        }
        let prefix = string_of(&chars, 0, anchor_position);
        let prefix_width: usize = str_display_width(prefix.as_str());
        Ok(start_column_for(self.terminal_size.0 / 2, prefix_width))
    }
}

impl Default for CellRenderer {
    fn default() -> (renderer: Self)
        ensures
            renderer.terminal_size == (80u16, 24u16),
            renderer.current_word_state is None,
    {
        Self::new()
    }
}

impl RsvpRenderer for CellRenderer {
    /// Nothing to set up: the size arrives through `update_terminal_size`.
    fn initialize(&mut self) -> (result: Result<(), RendererError>)
        ensures
            result is Ok,
            *final(self) == *old(self),
    {
        Ok(())
    }

    /// Keeps `word` and its anchor for the display to draw.
    fn render_word(&mut self, word: &str, anchor_position: usize) -> (result: Result<
        (),
        RendererError,
    >)
        ensures
            anchor_position < word@.len() ==> result is Ok && final(self).terminal_size == old(
                self,
            ).terminal_size && (final(self).current_word_state matches Some(state) && state.0@
                == word@ && state.1 == anchor_position),
            anchor_position >= word@.len() ==> *final(self) == *old(self) && (result matches Err(
                RendererError::InvalidArguments(msg),
            ) && msg@ == out_of_bounds_message(anchor_position as nat, word@, word@.len())),
    {
        let chars = chars_of(word);
        if anchor_position >= chars.len() {
            return Err(anchor_out_of_bounds(anchor_position, word, chars.len()));
        }
        self.current_word_state = Some((string_of(&chars, 0, chars.len()), anchor_position));
        assert(chars@.subrange(0, chars@.len() as int) =~= word@);
        Ok(())
    }

    fn clear(&mut self) -> (result: Result<(), RendererError>)
        ensures
            result is Ok,
            final(self).current_word_state is None,
            final(self).terminal_size == old(self).terminal_size,
    {
        self.current_word_state = None;
        Ok(())
    }

    fn supports_subpixel_ovp(&self) -> (supported: bool)
        ensures
            !supported,
    {
        false
    }

    fn cleanup(&mut self) -> (result: Result<(), RendererError>)
        ensures
            result is Ok,
            final(self).current_word_state is None,
            final(self).terminal_size == old(self).terminal_size,
    {
        self.current_word_state = None;
        Ok(())
    }
}

} // verus!
