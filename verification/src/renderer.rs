//! What every display backend offers, and how its operations fail.

use vstd::prelude::*;
use vstd::string::StringExecFns;
use crate::text::{append_decimal, decimal};

verus! {

/// How an operation of a renderer failed.
#[derive(Debug, Clone, PartialEq)]
pub enum RendererError {
    /// The renderer could not set up its resources.
    InitializationFailed(String),
    /// A word could not be drawn or sent.
    RenderFailed(String),
    /// The display could not be cleared.
    ClearFailed(String),
    /// The resources could not be released.
    CleanupFailed(String),
    /// An argument was out of range.
    InvalidArguments(String),
}

impl RendererError {
    /// The text that describes the error.
    pub open spec fn description(&self) -> Seq<char> {
        match self {
            RendererError::InitializationFailed(msg) => "Renderer initialization failed: "@ + msg@,
            RendererError::RenderFailed(msg) => "Word rendering failed: "@ + msg@,
            RendererError::ClearFailed(msg) => "Clear operation failed: "@ + msg@,
            RendererError::CleanupFailed(msg) => "Renderer cleanup failed: "@ + msg@,
            RendererError::InvalidArguments(msg) => "Invalid arguments: "@ + msg@,
        }
    }

    /// The error as a line of text: what failed, then the detail.
    pub fn to_string(&self) -> (text: String)
        ensures
            text@ == self.description(),
    {
        match self {
            RendererError::InitializationFailed(msg) => {
                String::from_str("Renderer initialization failed: ").concat(msg.as_str())
            },
            RendererError::RenderFailed(msg) => {
                String::from_str("Word rendering failed: ").concat(msg.as_str())
            },
            RendererError::ClearFailed(msg) => {
                String::from_str("Clear operation failed: ").concat(msg.as_str())
            },
            RendererError::CleanupFailed(msg) => {
                String::from_str("Renderer cleanup failed: ").concat(msg.as_str())
            },
            RendererError::InvalidArguments(msg) => {
                String::from_str("Invalid arguments: ").concat(msg.as_str())
            },
        }
    }
}

/// The detail of the error for an anchor that lies outside its word.
pub open spec fn out_of_bounds_message(anchor_position: nat, word: Seq<char>, length: nat) -> Seq<
    char,
> {
    "anchor_position "@ + decimal(anchor_position) + " out of bounds for word '"@ + word
        + "' (length: "@ + decimal(length) + ")"@
}

/// The error for an anchor that lies outside its word of `length` units.
pub fn anchor_out_of_bounds(anchor_position: usize, word: &str, length: usize) -> (error:
    RendererError)
    ensures
        error matches RendererError::InvalidArguments(msg) && msg@ == out_of_bounds_message(
            anchor_position as nat,
            word@,
            length as nat,
        ),
{
    let mut msg = String::from_str("anchor_position ");
    append_decimal(&mut msg, anchor_position as u64);
    msg.append(" out of bounds for word '");
    msg.append(word);
    msg.append("' (length: ");
    append_decimal(&mut msg, length as u64);
    msg.append(")");
    RendererError::InvalidArguments(msg)
}

/// A backend that shows one word at a time.
pub trait RsvpRenderer {
    /// Sets up the renderer; called once before the first word.
    fn initialize(&mut self) -> Result<(), RendererError>;

    /// Shows `word` with the character at `anchor_position` at the fixed
    /// viewing position. An anchor outside the word is an
    /// `InvalidArguments` error.
    fn render_word(&mut self, word: &str, anchor_position: usize) -> Result<(), RendererError>;

    /// Removes the word that is on display.
    fn clear(&mut self) -> Result<(), RendererError>;

    /// Whether the anchor is placed by pixels rather than by character cells.
    fn supports_subpixel_ovp(&self) -> bool;

    /// Releases what the renderer holds; called once at the end.
    fn cleanup(&mut self) -> Result<(), RendererError>;
}

} // verus!
