//! Documents that were loaded for reading, and the plain text of a chapter
//! of marked-up text.

use vstd::prelude::*;
use vstd::string::StringExecFns;
use crate::text::{chars_of, lowercase, spells, string_of, to_lowercase, trim_range, trimmed};
use crate::token::{token_views, Token};
use crate::tokenizer::{spec_tokenize, tokenize_text};

verus! {

/// How loading a document failed.
#[derive(Debug, Clone, PartialEq)]
pub enum LoadError {
    PdfParse(String),
    EpubParse(String),
    Clipboard(String),
    /// The path of the file that was not found.
    FileNotFound(String),
    UnsupportedFormat(String),
}

impl LoadError {
    /// The text that describes the error.
    pub open spec fn description(&self) -> Seq<char> {
        match self {
            LoadError::PdfParse(msg) => "PDF parse error: "@ + msg@,
            LoadError::EpubParse(msg) => "EPUB parse error: "@ + msg@,
            LoadError::Clipboard(msg) => "Clipboard error: "@ + msg@,
            LoadError::FileNotFound(path) => "File not found: "@ + path@,
            LoadError::UnsupportedFormat(format) => "Unsupported format: "@ + format@,
        }
    }

    /// The error as a line of text.
    pub fn to_string(&self) -> (text: String)
        ensures
            text@ == self.description(),
    {
        match self {
            LoadError::PdfParse(msg) => String::from_str("PDF parse error: ").concat(msg.as_str()),
            LoadError::EpubParse(msg) => String::from_str("EPUB parse error: ").concat(
                msg.as_str(),
            ),
            LoadError::Clipboard(msg) => String::from_str("Clipboard error: ").concat(
                msg.as_str(),
            ),
            LoadError::FileNotFound(path) => String::from_str("File not found: ").concat(
                path.as_str(),
            ),
            LoadError::UnsupportedFormat(format) => String::from_str(
                "Unsupported format: ",
            ).concat(format.as_str()),
        }
    }
}

/// The kinds of file that can be loaded.
#[derive(Debug, Clone, Copy, PartialEq, Eq, Structural)]
pub enum DocumentKind {
    Pdf,
    Epub,
    Unsupported,
}

/// The kind of a file by its extension in lower case; a file without an
/// extension is unsupported.
pub open spec fn spec_document_kind(extension_lower: Option<Seq<char>>) -> DocumentKind {
    if extension_lower == Some("pdf"@) {
        DocumentKind::Pdf
    } else if extension_lower == Some("epub"@) {
        DocumentKind::Epub
    } else {
        DocumentKind::Unsupported
    }
}

/// The kind of a file whose extension, already in lower case, is given.
pub fn kind_of_extension(extension_lower: Option<&str>) -> (kind: DocumentKind)
    ensures
        kind == spec_document_kind(
            match extension_lower {
                Some(e) => Some(e@),
                None => None,
            },
        ),
{
    match extension_lower {
        Some(extension) => {
            let chars = chars_of(extension);
            if spells(&chars, "pdf") {
                DocumentKind::Pdf
            } else if spells(&chars, "epub") {
                DocumentKind::Epub
            } else {
                DocumentKind::Unsupported
            }
        },
        None => DocumentKind::Unsupported,
    }
}

/// The kind of a file by its extension, whatever the case of its letters.
pub fn document_kind(extension: Option<&str>) -> (kind: DocumentKind)
    ensures
        kind == spec_document_kind(
            match extension {
                Some(e) => Some(lowercase(e@)),
                None => None,
            },
        ),
{
    match extension {
        Some(e) => {
            let lower = to_lowercase(e);
            kind_of_extension(Some(lower.as_str()))
        },
        None => kind_of_extension(None),
    }
}

/// What the user is told of a file of an unsupported kind, line by line.
pub fn unsupported_format_lines(filename: &str) -> (lines: Vec<String>)
    ensures
        lines@.len() == 3,
        lines@[0]@ == "Unsupported format: "@ + filename@,
        lines@[1]@ == "Supported formats: .pdf, .epub"@,
        lines@[2]@ == "For clipboard, use @@ command"@,
{
    let mut lines: Vec<String> = Vec::new();
    lines.push(String::from_str("Unsupported format: ").concat(filename));
    lines.push(String::from_str("Supported formats: .pdf, .epub"));
    lines.push(String::from_str("For clipboard, use @@ command"));
    lines
}

/// A document ready for reading.
pub struct LoadedDocument {
    pub tokens: Vec<Token>,
    /// Where the text came from.
    pub source: String,
}

/// The document made of `text`, which came from `source`.
pub fn loaded_document(text: &str, source: String) -> (document: LoadedDocument)
    ensures
        token_views(document.tokens@) == spec_tokenize(text@),
        document.source == source,
{
    LoadedDocument { tokens: tokenize_text(text), source }
}

/// Whether the character after `html` lies inside a tag: the last of `<` and
/// `>` in `html` is a `<`.
pub open spec fn in_tag_after(html: Seq<char>) -> bool
    decreases html.len(),
{
    if html.len() == 0 {
        false
    } else if html.last() == '<' {
        true
    } else if html.last() == '>' {
        false
    } else {
        in_tag_after(html.drop_last())
    }
}

/// `html` without its tags: without `<` and `>` and what stands between a
/// `<` and the next `>`.
pub open spec fn strip_tags(html: Seq<char>) -> Seq<char>
    decreases html.len(),
{
    if html.len() == 0 {
        Seq::empty()
    } else {
        let c = html.last();
        let before = strip_tags(html.drop_last());
        if c == '<' || c == '>' || in_tag_after(html.drop_last()) {
            before
        } else {
            before.push(c)
        }
    }
}

/// The text with `line` added as a further line, unless `line` is empty.
pub open spec fn with_line(text: Seq<char>, lines: nat, line: Seq<char>) -> Seq<char> {
    if line.len() == 0 {
        text
    } else if lines == 0 {
        line
    } else {
        text + seq!['\n'] + line
    }
}

/// The number of lines after `line` was added, unless `line` is empty.
pub open spec fn line_added(lines: nat, line: Seq<char>) -> nat {
    if line.len() == 0 {
        lines
    } else {
        lines + 1
    }
}

/// What a pass over a text has collected: the lines so far, trimmed and
/// joined by line breaks, their number, and the line that is being read.
pub struct LineScan {
    pub text: Seq<char>,
    pub lines: nat,
    pub pending: Seq<char>,
}

/// The pass over `text`: `'\n'` ends the pending line, which is added
/// without the white space around it unless nothing is left of it; every
/// other character extends the pending line.
pub open spec fn scan_lines(text: Seq<char>) -> LineScan
    decreases text.len(),
{
    if text.len() == 0 {
        LineScan { text: Seq::empty(), lines: 0, pending: Seq::empty() }
    } else {
        let before = scan_lines(text.drop_last());
        if text.last() == '\n' {
            LineScan {
                text: with_line(before.text, before.lines, trimmed(before.pending)),
                lines: line_added(before.lines, trimmed(before.pending)),
                pending: Seq::empty(),
            }
        } else {
            LineScan { pending: before.pending.push(text.last()), ..before }
        }
    }
}

/// The lines of `text`, each without the white space around it, the empty
/// ones left out, joined by line breaks.
pub open spec fn compact_lines(text: Seq<char>) -> Seq<char> {
    let scan = scan_lines(text);
    with_line(scan.text, scan.lines, trimmed(scan.pending))
}

/// The readable text of a piece of marked-up text: the text without its
/// tags, line by line, without empty lines.
pub open spec fn spec_extract_plain_text(html: Seq<char>) -> Seq<char> {
    compact_lines(strip_tags(html))
}

fn remove_tags(html: &Vec<char>) -> (text: Vec<char>)
    ensures
        text@ == strip_tags(html@),
{
    let mut text: Vec<char> = Vec::new();
    let mut in_tag: bool = false;
    let mut i: usize = 0;
    while i < html.len()
        invariant
            i <= html@.len(),
            text@ == strip_tags(html@.subrange(0, i as int)),
            in_tag == in_tag_after(html@.subrange(0, i as int)),
        decreases html@.len() - i,
    {
        let c: char = html[i];
        proof {
            assert(html@.subrange(0, i + 1).drop_last() =~= html@.subrange(0, i as int));
            assert(html@.subrange(0, i + 1).last() == c);
        }
        if c == '<' {
            in_tag = true;
        } else if c == '>' {
            in_tag = false;
        } else if !in_tag {
            text.push(c);
        }
        i += 1;
    }
    assert(html@.subrange(0, i as int) =~= html@);
    text
}

fn add_line(result: &mut String, count: &mut usize, chars: &Vec<char>, from: usize, to: usize)
    requires
        from <= to <= chars@.len(),
        *old(count) < chars@.len() || from == to,
    ensures
        final(result)@ == with_line(
            old(result)@,
            *old(count) as nat,
            chars@.subrange(from as int, to as int),
        ),
        *final(count) == line_added(*old(count) as nat, chars@.subrange(from as int, to as int)),
{
    let len: usize = chars.len();
    if from < to {
        assert(*count < len);
        if *count > 0 {
            result.push('\n');
        } else {
            *result = String::new();
        }
        let line = string_of(chars, from, to);
        result.append(line.as_str());
        *count = *count + 1;
        proof {
            if *old(count) > 0 {
                assert(old(result)@.push('\n') =~= old(result)@ + seq!['\n']);
            } else {
                assert(Seq::<char>::empty() + line@ =~= line@);
            }
        }
    }
}

/// The readable text of `html`.
pub fn extract_plain_text(html: &str) -> (text: String)
    ensures
        text@ == spec_extract_plain_text(html@),
{
    let raw = chars_of(html);
    let chars = remove_tags(&raw);
    let n: usize = chars.len();
    let mut result = String::new();
    let mut count: usize = 0;
    let mut start: usize = 0;
    let mut i: usize = 0;
    while i < n
        invariant
            start <= i <= n,
            n == chars@.len(),
            count <= start,
            scan_lines(chars@.subrange(0, i as int)).text == result@,
            scan_lines(chars@.subrange(0, i as int)).lines == count,
            scan_lines(chars@.subrange(0, i as int)).pending == chars@.subrange(
                start as int,
                i as int,
            ),
        decreases n - i,
    {
        proof {
            assert(chars@.subrange(0, i + 1).drop_last() =~= chars@.subrange(0, i as int));
            assert(chars@.subrange(0, i + 1).last() == chars@[i as int]);
        }
        if chars[i] == '\n' {
            let (from, to) = trim_range(&chars, start, i);
            add_line(&mut result, &mut count, &chars, from, to);
            start = i + 1;
            assert(chars@.subrange(start as int, i + 1) =~= Seq::<char>::empty());
        } else {
            assert(chars@.subrange(start as int, i as int).push(chars@[i as int])
                =~= chars@.subrange(start as int, i + 1));
        }
        i += 1;
    }
    assert(chars@.subrange(0, n as int) =~= chars@);
    let (from, to) = trim_range(&chars, start, n);
    add_line(&mut result, &mut count, &chars, from, to);
    result
}

} // verus!
