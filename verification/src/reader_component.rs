//! The reader of the cell display: it keeps the word to show and says where
//! on the screen it goes.

use vstd::prelude::*;
use vstd::string::StringExecFns;
use crate::cell_renderer::{display_width, spec_start_column, CellRenderer};
use crate::renderer::{out_of_bounds_message, RendererError, RsvpRenderer};
use crate::spans::{grapheme_clusters, is_split, split_at_anchor, WordSpans};

verus! {

/// Where the word goes in the cell display.
pub enum CellPlan {
    /// The word in three parts, starting at `column` of `row`, so that the
    /// anchor stands in the middle column.
    Anchored { column: u32, row: u32, spans: WordSpans },
    /// The whole word at the left edge of the middle row: the anchor could
    /// not be placed.
    Whole { column: u32, row: u32, word: String },
}

/// The reader of the cell display.
pub struct ReaderComponent {
    pub renderer: CellRenderer,
}

impl ReaderComponent {
    /// A reader with a new renderer.
    pub fn new() -> (component: Self)
        ensures
            component.renderer.terminal_size == (80u16, 24u16),
            component.renderer.current_word_state is None,
    {
        ReaderComponent { renderer: CellRenderer::new() }
    }

    /// The renderer, to change it.
    pub fn renderer(&mut self) -> (renderer: &mut CellRenderer)
        ensures
            *renderer == old(self).renderer,
            final(self).renderer == *final(renderer),
    {
        &mut self.renderer
    }

    /// Whether the anchor of the word on display can be placed: it is a
    /// character of the word and a cluster of it.
    pub open spec fn anchor_is_placeable(word: Seq<char>, anchor: int) -> bool {
        0 <= anchor < word.len() && anchor < grapheme_clusters(word).len()
    }

    /// Where the word on display goes in an area of the screen that starts
    /// at column `x`, row `y` and is `width` by `height` cells. The renderer
    /// takes the size of the area as the size of the terminal. `None` while
    /// no word is on display.
    pub fn layout(&mut self, x: u16, y: u16, width: u16, height: u16) -> (plan: Option<CellPlan>)
        ensures
            final(self).renderer.terminal_size == (width, height),
            final(self).renderer.current_word_state == old(self).renderer.current_word_state,
            match old(self).renderer.current_word_state {
                None => plan is None,
                Some(state) => if Self::anchor_is_placeable(state.0@, state.1 as int) {
                    plan matches Some(CellPlan::Anchored { column, row, spans }) && column == x
                        + spec_start_column(
                        (width / 2) as int,
                        display_width(state.0@.subrange(0, state.1 as int)) as int,
                    ) && row == y + height / 2 && is_split(
                        spans,
                        grapheme_clusters(state.0@),
                        state.1 as int,
                    )
                } else {
                    plan matches Some(CellPlan::Whole { column, row, word }) && column == x && row
                        == y + height / 2 && word@ == state.0@
                },
            },
    {
        self.renderer.update_terminal_size(width, height);
        let row: u32 = y as u32 + (self.renderer.get_center_row() as u32);
        match self.renderer.get_current_word_state() {
            None => None,
            Some((word, anchor_position)) => {
                match self.renderer.calculate_start_column(word, anchor_position) {
                    Ok(start_col) => match split_at_anchor(word, anchor_position) {
                        Ok(spans) => Some(
                            CellPlan::Anchored { column: x as u32 + start_col as u32, row, spans },
                        ),
                        Err(_) => Some(
                            CellPlan::Whole {
                                column: x as u32,
                                row,
                                word: String::from_str(word),
                            },
                        ),
                    },
                    Err(_) => Some(
                        CellPlan::Whole { column: x as u32, row, word: String::from_str(word) },
                    ),
                }
            },
        }
    }

    /// Puts `word` on display with its anchor at `anchor_position`.
    pub fn display_word(&mut self, word: &str, anchor_position: usize) -> (result: Result<
        (),
        RendererError,
    >)
        ensures
            anchor_position < word@.len() ==> result is Ok && final(self).renderer.terminal_size
                == old(self).renderer.terminal_size && (
            final(self).renderer.current_word_state matches Some(state) && state.0@ == word@
                && state.1 == anchor_position),
            anchor_position >= word@.len() ==> *final(self) == *old(self) && (result matches Err(
                RendererError::InvalidArguments(msg),
            ) && msg@ == out_of_bounds_message(anchor_position as nat, word@, word@.len())),
    {
        self.renderer.render_word(word, anchor_position)
    }

    /// Takes the word off the display.
    pub fn clear(&mut self) -> (result: Result<(), RendererError>)
        ensures
            result is Ok,
            final(self).renderer.current_word_state is None,
            final(self).renderer.terminal_size == old(self).renderer.terminal_size,
    {
        self.renderer.clear()
    }
}

impl Default for ReaderComponent {
    fn default() -> (component: Self)
        ensures
            component.renderer.terminal_size == (80u16, 24u16),
            component.renderer.current_word_state is None,
    {
        Self::new()
    }
}

} // verus!
