//! Anchor placement: which letter of a word stays at the fixed viewing position.

use vstd::prelude::*;
use vstd::string::StrSliceExecFns;

verus! {

/// The zero-based anchor index of a word of `len` characters.
pub open spec fn anchor_for_len(len: nat) -> nat {
    if len <= 1 {
        0
    } else if len <= 5 {
        1
    } else if len <= 9 {
        2
    } else {
        3
    }
}

/// The anchor index of `word`, by its number of characters.
pub fn calculate_anchor_position(word: &str) -> (anchor: usize)
    ensures
        anchor as nat == anchor_for_len(word@.len()),
{
    let len: usize = word.unicode_len();
    if len <= 1 {
        0
    } else if len <= 5 {
        1
    } else if len <= 9 {
        2
    } else {
        3
    }
}

/// The anchor index never exceeds 3, and lies inside every non-empty word.
pub proof fn lemma_anchor_in_word(len: nat)
    ensures
        anchor_for_len(len) <= 3,
        len > 0 ==> anchor_for_len(len) < len,
{
}

} // verus!
