//! Which display a terminal supports, told from the names that its
//! environment gives it.

use vstd::prelude::*;
use crate::text::{contains_text, lowercase, spec_contains, to_lowercase};

verus! {

/// How far a terminal supports graphics.
#[derive(Debug, Clone, Copy, PartialEq, Eq, Structural)]
pub enum GraphicsCapability {
    /// No pixel graphics: words are shown in character cells.
    Unsupported,
    /// The terminal understands the graphics protocol.
    Kitty,
}

impl GraphicsCapability {
    /// Whether words can be drawn as images.
    pub fn supports_graphics(&self) -> (supported: bool)
        ensures
            supported == (*self == GraphicsCapability::Kitty),
    {
        match self {
            GraphicsCapability::Kitty => true,
            GraphicsCapability::Unsupported => false,
        }
    }

    /// Whether the anchor can be placed by pixels.
    pub fn supports_subpixel_ovp(&self) -> (supported: bool)
        ensures
            supported == (*self == GraphicsCapability::Kitty),
    {
        match self {
            GraphicsCapability::Kitty => true,
            GraphicsCapability::Unsupported => false,
        }
    }
}

/// What a terminal type in lower case says: the types that name `kitty` or
/// `konsole` understand the graphics protocol.
pub open spec fn term_names_graphics(term_lower: Seq<char>) -> bool {
    spec_contains(term_lower, "kitty"@) || spec_contains(term_lower, "xterm-kitty"@)
        || spec_contains(term_lower, "konsole"@)
}

/// What the terminal type and the terminal program, both in lower case, say
/// of the terminal; `None` where neither says anything.
pub open spec fn spec_capability(
    term_lower: Option<Seq<char>>,
    program_lower: Option<Seq<char>>,
) -> Option<GraphicsCapability> {
    if term_lower is Some && term_names_graphics(term_lower->0) {
        Some(GraphicsCapability::Kitty)
    } else if program_lower is Some && spec_contains(program_lower->0, "kitty"@) {
        Some(GraphicsCapability::Kitty)
    } else {
        None
    }
}

/// The value of an optional text.
pub open spec fn optional_text(text: Option<&str>) -> Option<Seq<char>> {
    match text {
        Some(t) => Some(t@),
        None => None,
    }
}

/// The lower-case form of an optional string.
pub open spec fn optional_lowercase(text: Option<String>) -> Option<Seq<char>> {
    match text {
        Some(t) => Some(lowercase(t@)),
        None => None,
    }
}

/// What a terminal type and a terminal program, both already in lower case,
/// say of the terminal.
pub fn capability_of(term_lower: Option<&str>, program_lower: Option<&str>) -> (capability: Option<
    GraphicsCapability,
>)
    ensures
        capability == spec_capability(optional_text(term_lower), optional_text(program_lower)),
{
    match term_lower {
        Some(term) => {
            if contains_text(term, "kitty") || contains_text(term, "xterm-kitty") {
                return Some(GraphicsCapability::Kitty);
            }
            if contains_text(term, "konsole") {
                return Some(GraphicsCapability::Kitty);
            }
        },
        None => {},
    }
    match program_lower {
        Some(program) => {
            if contains_text(program, "kitty") {
                return Some(GraphicsCapability::Kitty);
            }
        },
        None => {},
    }
    None
}

/// Tells the capability of a terminal from what its environment says.
pub struct CapabilityDetector {
    /// The terminal type, where the environment gives one.
    pub term: Option<String>,
    /// The name of the terminal program, where the environment gives one.
    pub term_program: Option<String>,
}

impl CapabilityDetector {
    /// A detector that knows nothing of the environment.
    pub fn new() -> (detector: Self)
        ensures
            detector.term is None,
            detector.term_program is None,
    {
        CapabilityDetector { term: None, term_program: None }
    }

    /// A detector for an environment with the given terminal type and
    /// terminal program.
    pub fn with_environment(term: Option<String>, term_program: Option<String>) -> (detector: Self)
        ensures
            detector.term == term,
            detector.term_program == term_program,
    {
        CapabilityDetector { term, term_program }
    }

    /// The capability of the terminal: what the environment says, whatever
    /// the case of its letters, and no graphics where it says nothing.
    pub fn detect(&self) -> (capability: GraphicsCapability)
        ensures
            capability == (match spec_capability(
                optional_lowercase(self.term),
                optional_lowercase(self.term_program),
            ) {
                Some(c) => c,
                None => GraphicsCapability::Unsupported,
            }),
    {
        match self.detect_from_env() {
            Some(capability) => capability,
            None => GraphicsCapability::Unsupported,
        }
    }

    fn detect_from_env(&self) -> (capability: Option<GraphicsCapability>)
        ensures
            capability == spec_capability(
                optional_lowercase(self.term),
                optional_lowercase(self.term_program),
            ),
    {
        let term_lower: Option<String> = match &self.term {
            Some(term) => Some(to_lowercase(term.as_str())),
            None => None,
        };
        let program_lower: Option<String> = match &self.term_program {
            Some(program) => Some(to_lowercase(program.as_str())),
            None => None,
        };
        let term_ref: Option<&str> = match &term_lower {
            Some(t) => Some(t.as_str()),
            None => None,
        };
        let program_ref: Option<&str> = match &program_lower {
            Some(p) => Some(p.as_str()),
            None => None,
        };
        capability_of(term_ref, program_ref)
    }

    /// The capability that the command line forces: graphics where
    /// `force_kitty` is set, else cells where `force_tui` is set, else none.
    pub fn detect_from_override(&self, force_kitty: bool, force_tui: bool) -> (capability: Option<
        GraphicsCapability,
    >)
        ensures
            capability == (if force_kitty {
                Some(GraphicsCapability::Kitty)
            } else if force_tui {
                Some(GraphicsCapability::Unsupported)
            } else {
                None
            }),
    {
        if force_kitty {
            return Some(GraphicsCapability::Kitty);
        }
        if force_tui {
            return Some(GraphicsCapability::Unsupported);
        }
        None
    }
}

impl Default for CapabilityDetector {
    fn default() -> (detector: Self)
        ensures
            detector.term is None,
            detector.term_program is None,
    {
        Self::new()
    }
}

/// The warning that is shown where words are displayed in character cells.
pub fn get_tui_fallback_warning() -> (warning: &'static str)
    ensures
        warning@ == "\u{26a0}\u{fe0f}  Running in TUI fallback mode. For pixel-perfect RSVP with sub-pixel OVP anchoring, use Kitty or Konsole terminal."@,
{
    "\u{26a0}\u{fe0f}  Running in TUI fallback mode. For pixel-perfect RSVP with sub-pixel OVP anchoring, use Kitty or Konsole terminal."
}

} // verus!
