//! The reading cursor: a position in a token sequence and a speed.

use vstd::prelude::*;
use vstd::string::StrSliceExecFns;
use crate::config::TimingConfig;
use crate::timing::{
    clamped_duration, length_penalty, max_multiplier, max_punctuation_multiplier,
    scaled_duration, spec_wpm_to_milliseconds, wpm_to_milliseconds,
};
use crate::token::{Token, TokenView};

verus! {

/// `x` held between `low` and `high`; the lower bound is tested first.
pub open spec fn clamp(x: int, low: int, high: int) -> int {
    if x < low {
        low
    } else if x > high {
        high
    } else {
        x
    }
}

/// How long `token` stays on screen at `wpm` words per minute under `config`.
pub open spec fn spec_token_duration(config: TimingConfig, wpm: u32, token: TokenView) -> int {
    clamped_duration(
        spec_wpm_to_milliseconds(wpm),
        max_multiplier(config, token.punctuation) as int,
        length_penalty(
            token.text,
            config.long_word_threshold as int,
            config.long_word_penalty,
        ) as int,
    )
}

/// `i` is the first sentence start after position `index`.
pub open spec fn is_next_sentence_start(tokens: Seq<Token>, index: int, i: int) -> bool {
    &&& index < i < tokens.len()
    &&& tokens[i].is_sentence_start
    &&& forall|j: int| index < j < i ==> !(#[trigger] tokens[j]).is_sentence_start
}

/// No token after position `index` starts a sentence.
pub open spec fn no_sentence_start_after(tokens: Seq<Token>, index: int) -> bool {
    forall|j: int| index < j < tokens.len() ==> !(#[trigger] tokens[j]).is_sentence_start
}

/// `i` is the last sentence start before position `index`.
pub open spec fn is_previous_sentence_start(tokens: Seq<Token>, index: int, i: int) -> bool {
    &&& 0 <= i < index
    &&& i < tokens.len()
    &&& tokens[i].is_sentence_start
    &&& forall|j: int| i < j < index && j < tokens.len() ==> !(#[trigger] tokens[j]).is_sentence_start
}

/// No token before position `index` starts a sentence.
pub open spec fn no_sentence_start_before(tokens: Seq<Token>, index: int) -> bool {
    forall|j: int| 0 <= j < index && j < tokens.len() ==> !(#[trigger] tokens[j]).is_sentence_start
}

/// A position in a token sequence, with the reading speed.
pub struct ReadingState {
    pub tokens: Vec<Token>,
    pub current_index: usize,
    pub wpm: u32,
    /// The settings that this cursor was made with.
    pub config: TimingConfig,
}

impl ReadingState {
    /// The position is that of a token, or 0 where there is none.
    pub open spec fn well_formed(&self) -> bool {
        self.current_index < self.tokens@.len() || (self.tokens@.len() == 0 && self.current_index
            == 0)
    }

    /// A cursor at the first of `tokens`.
    pub fn new(tokens: Vec<Token>, wpm: u32, config: TimingConfig) -> (state: Self)
        ensures
            state.tokens == tokens,
            state.current_index == 0,
            state.wpm == wpm,
            state.config == config,
            state.well_formed(),
    {
        ReadingState { tokens, current_index: 0, wpm, config }
    }

    /// A cursor at the first of `tokens`, with the default settings.
    pub fn new_with_default_config(tokens: Vec<Token>, wpm: u32) -> (state: Self)
        ensures
            state.tokens == tokens,
            state.current_index == 0,
            state.wpm == wpm,
            state.config == TimingConfig::spec_default(),
            state.well_formed(),
    {
        Self::new(tokens, wpm, TimingConfig::default())
    }

    /// The token at the cursor, if there is one.
    pub fn current_token(&self) -> (token: Option<&Token>)
        ensures
            self.current_index < self.tokens@.len() ==> token == Some(
                &self.tokens@[self.current_index as int],
            ),
            self.current_index >= self.tokens@.len() ==> token is None,
    {
        if self.current_index < self.tokens.len() {
            Some(&self.tokens[self.current_index])
        } else {
            None
        }
    }

    /// How long the token at the cursor stays on screen, in milliseconds; 0
    /// where there is no token.
    pub fn current_token_duration(&self) -> (ms: u64)
        ensures
            self.current_index < self.tokens@.len() ==> ms == spec_token_duration(
                self.config,
                self.wpm,
                self.tokens@[self.current_index as int]@,
            ),
            self.current_index >= self.tokens@.len() ==> ms == 0,
    {
        match self.current_token() {
            Some(token) => self.calculate_token_duration(token),
            None => 0,
        }
    }

    /// The current speed in words per minute.
    pub fn get_wpm(&self) -> (wpm: u32)
        ensures
            wpm == self.wpm,
    {
        self.wpm
    }

    /// Changes the speed by `delta` and holds it within the configured bounds.
    pub fn adjust_wpm(&mut self, delta: i32)
        ensures
            final(self).wpm == clamp(
                old(self).wpm + delta,
                old(self).config.min_wpm as int,
                old(self).config.max_wpm as int,
            ),
            final(self).tokens == old(self).tokens,
            final(self).current_index == old(self).current_index,
            final(self).config == old(self).config,
    {
        let target: i64 = self.wpm as i64 + delta as i64;
        if target < self.config.min_wpm as i64 {
            self.wpm = self.config.min_wpm;
        } else if target > self.config.max_wpm as i64 {
            self.wpm = self.config.max_wpm;
        } else {
            self.wpm = target as u32;
        }
    }

    fn calculate_token_duration(&self, token: &Token) -> (ms: u64)
        ensures
            ms == spec_token_duration(self.config, self.wpm, token@),
    {
        let base_delay_ms: u64 = wpm_to_milliseconds(self.wpm);
        let multiplier: u32 = max_punctuation_multiplier(
            &self.config,
            token.punctuation.as_slice(),
        );
        let word_length: usize = token.text.as_str().unicode_len();
        let penalty: u32 = if word_length > self.config.long_word_threshold {
            self.config.long_word_penalty
        } else {
            100
        };
        scaled_duration(base_delay_ms, multiplier, penalty)
    }

    /// Moves to the next token; stays where it is at the last one.
    pub fn advance(&mut self)
        ensures
            final(self).current_index == (if old(self).current_index + 1 < old(self).tokens@.len() {
                old(self).current_index + 1
            } else {
                old(self).current_index as int
            }),
            final(self).tokens == old(self).tokens,
            final(self).wpm == old(self).wpm,
            final(self).config == old(self).config,
            old(self).well_formed() ==> final(self).well_formed(),
    {
        let len: usize = self.tokens.len();
        if len > 0 && self.current_index < len - 1 {
            self.current_index += 1;
        }
    }

    /// The first sentence start after the cursor.
    pub fn find_next_sentence_start(&self) -> (found: Option<usize>)
        ensures
            match found {
                Some(i) => is_next_sentence_start(
                    self.tokens@,
                    self.current_index as int,
                    i as int,
                ),
                None => no_sentence_start_after(self.tokens@, self.current_index as int),
            },
    {
        let len: usize = self.tokens.len();
        if self.current_index >= len {
            return None;
        }
        let mut i: usize = self.current_index + 1;
        while i < len
            invariant
                self.current_index < i <= len,
                len == self.tokens@.len(),
                forall|j: int|
                    self.current_index < j < i ==> !(#[trigger] self.tokens@[j]).is_sentence_start,
            decreases len - i,
        {
            if self.tokens[i].is_sentence_start {
                return Some(i);
            }
            i += 1;
        }
        None
    }

    /// Moves to the first sentence start after the cursor. Where there is
    /// none, the cursor stays and the result is `false`.
    pub fn jump_to_next_sentence(&mut self) -> (moved: bool)
        ensures
            moved == !no_sentence_start_after(old(self).tokens@, old(self).current_index as int),
            moved ==> is_next_sentence_start(
                old(self).tokens@,
                old(self).current_index as int,
                final(self).current_index as int,
            ),
            !moved ==> final(self).current_index == old(self).current_index,
            old(self).current_index + 1 >= old(self).tokens@.len() ==> !moved,
            final(self).tokens == old(self).tokens,
            final(self).wpm == old(self).wpm,
            final(self).config == old(self).config,
            old(self).well_formed() ==> final(self).well_formed(),
    {
        match self.find_next_sentence_start() {
            Some(index) => {
                self.current_index = index;
                true
            },
            None => false,
        }
    }

    /// The last sentence start before the cursor.
    pub fn find_previous_sentence_start(&self) -> (found: Option<usize>)
        ensures
            match found {
                Some(i) => is_previous_sentence_start(
                    self.tokens@,
                    self.current_index as int,
                    i as int,
                ),
                None => no_sentence_start_before(self.tokens@, self.current_index as int),
            },
    {
        let len: usize = self.tokens.len();
        let mut i: usize = if self.current_index < len {
            self.current_index
        } else {
            len
        };
        while i > 0
            invariant
                i <= len,
                i <= self.current_index,
                len == self.tokens@.len(),
                forall|j: int|
                    i <= j < self.current_index && j < len ==> !(
                    #[trigger] self.tokens@[j]).is_sentence_start,
            decreases i,
        {
            i -= 1;
            if self.tokens[i].is_sentence_start {
                return Some(i);
            }
        }
        None
    }

    /// Moves to the last sentence start before the cursor. Where there is
    /// none, the cursor stays and the result is `false`.
    pub fn jump_to_previous_sentence(&mut self) -> (moved: bool)
        ensures
            moved == !no_sentence_start_before(old(self).tokens@, old(self).current_index as int),
            moved ==> is_previous_sentence_start(
                old(self).tokens@,
                old(self).current_index as int,
                final(self).current_index as int,
            ),
            !moved ==> final(self).current_index == old(self).current_index,
            old(self).current_index == 0 || old(self).tokens@.len() == 0 ==> !moved,
            final(self).tokens == old(self).tokens,
            final(self).wpm == old(self).wpm,
            final(self).config == old(self).config,
            old(self).well_formed() ==> final(self).well_formed(),
    {
        match self.find_previous_sentence_start() {
            Some(index) => {
                self.current_index = index;
                true
            },
            None => false,
        }
    }
}

} // verus!
