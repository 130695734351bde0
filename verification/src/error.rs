//! How reading a text file fails.

use vstd::prelude::*;
use vstd::string::StringExecFns;
use crate::text::{chars_of, trim_range, trimmed};

verus! {

/// An error of the application.
#[derive(Debug, Clone, PartialEq)]
pub enum SpeedyError {
    /// The file could not be read; the text says why.
    IoError(String),
    /// The file at this path holds nothing but white space.
    EmptyFile(String),
    /// The file at this path is not valid text.
    InvalidEncoding(String),
}

impl SpeedyError {
    /// The text that describes the error.
    pub open spec fn description(&self) -> Seq<char> {
        match self {
            SpeedyError::IoError(err) => "I/O error: "@ + err@,
            SpeedyError::EmptyFile(path) => "File is empty: "@ + path@,
            SpeedyError::InvalidEncoding(path) => "Invalid file encoding: "@ + path@,
        }
    }

    /// The error as a line of text.
    pub fn to_string(&self) -> (text: String)
        ensures
            text@ == self.description(),
    {
        match self {
            SpeedyError::IoError(err) => String::from_str("I/O error: ").concat(err.as_str()),
            SpeedyError::EmptyFile(path) => String::from_str("File is empty: ").concat(
                path.as_str(),
            ),
            SpeedyError::InvalidEncoding(path) => String::from_str(
                "Invalid file encoding: ",
            ).concat(path.as_str()),
        }
    }
}

/// Accepts the content of the file at `path` unless it holds nothing but
/// white space.
pub fn check_file_content(path: &str, content: String) -> (result: Result<String, SpeedyError>)
    ensures
        trimmed(content@).len() > 0 ==> result == Ok::<String, SpeedyError>(content),
        trimmed(content@).len() == 0 ==> (result matches Err(SpeedyError::EmptyFile(p)) && p@
            == path@),
{
    let chars = chars_of(content.as_str());
    let n: usize = chars.len();
    assert(chars@.subrange(0, n as int) =~= chars@);
    let (from, to) = trim_range(&chars, 0, n);
    if from == to {
        Err(SpeedyError::EmptyFile(String::from_str(path)))
    } else {
        Ok(content)
    }
}

} // verus!
