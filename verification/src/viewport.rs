//! Terminal geometry: the size of the text area in pixels and in cells, and
//! the conversion from cells to pixels.

use vstd::prelude::*;
use vstd::string::StringExecFns;
use crate::text::{
    chars_of, decimal, is_decimal_digit, lemma_decimal_is_numeral, lemma_digits_end,
    lemma_digits_end_is_unique, lemma_numeral_is_decimal, number_at, spec_number_at,
};

verus! {

/// Lengths finer than a pixel are held in sixty-fourths of a pixel.
pub const SUBPIXELS: u64 = 64;

/// `numerator / denominator` rounded down, and 0 for a denominator of 0.
pub open spec fn ratio_floor(numerator: int, denominator: int) -> int {
    if denominator > 0 {
        numerator / denominator
    } else {
        0
    }
}

/// The pixel at which cell number `index` starts, where `cells` cells share
/// `pixels` pixels: `index × pixels / cells`, rounded down and held at the
/// largest `u32`; 0 where there are no cells.
pub open spec fn cell_offset(index: int, pixels: int, cells: int) -> int {
    let exact = ratio_floor(index * pixels, cells);
    if exact > u32::MAX {
        u32::MAX as int
    } else {
        exact
    }
}

fn scale_cells(index: u16, pixels: u32, cells: u16) -> (offset: u32)
    ensures
        offset == cell_offset(index as int, pixels as int, cells as int),
{
    if cells == 0 {
        return 0;
    }
    assert((index as int) * (pixels as int) <= 0xFFFF * 0xFFFF_FFFF) by (nonlinear_arith)
        requires
            0 <= index <= 0xFFFF,
            0 <= pixels <= 0xFFFF_FFFF,
    ;
    let product: u64 = (index as u64) * (pixels as u64);
    let exact: u64 = product / (cells as u64);
    if exact > u32::MAX as u64 {
        u32::MAX
    } else {
        exact as u32
    }
}

/// A snapshot of the terminal's geometry.
#[derive(Debug, Clone, Copy, PartialEq, Eq)]
pub struct TerminalDimensions {
    /// The text area in pixels: width, height.
    pub pixel_size: (u32, u32),
    /// The grid of cells: columns, rows.
    pub cell_count: (u16, u16),
    /// The size of one cell in sixty-fourths of a pixel: width, height.
    pub cell_size: (u64, u64),
}

impl TerminalDimensions {
    /// The geometry of a text area of the given size in pixels and in cells.
    /// The size of a cell is the pixel size divided by the cell count, and 0
    /// where the count is 0.
    pub fn new(pixel_width: u32, pixel_height: u32, cols: u16, rows: u16) -> (dims: Self)
        ensures
            dims.pixel_size == (pixel_width, pixel_height),
            dims.cell_count == (cols, rows),
            dims.cell_size.0 == ratio_floor(pixel_width * 64, cols as int),
            dims.cell_size.1 == ratio_floor(pixel_height * 64, rows as int),
    {
        let cell_width: u64 = if cols > 0 {
            (pixel_width as u64) * SUBPIXELS / (cols as u64)
        } else {
            0
        };
        let cell_height: u64 = if rows > 0 {
            (pixel_height as u64) * SUBPIXELS / (rows as u64)
        } else {
            0
        };
        TerminalDimensions {
            pixel_size: (pixel_width, pixel_height),
            cell_count: (cols, rows),
            cell_size: (cell_width, cell_height),
        }
    }

    /// The pixel at the top-left corner of the cell in column `col`, row `row`.
    pub fn cell_to_pixel(&self, col: u16, row: u16) -> (pixel: (u32, u32))
        ensures
            pixel.0 == cell_offset(col as int, self.pixel_size.0 as int, self.cell_count.0 as int),
            pixel.1 == cell_offset(row as int, self.pixel_size.1 as int, self.cell_count.1 as int),
    {
        (
            scale_cells(col, self.pixel_size.0, self.cell_count.0),
            scale_cells(row, self.pixel_size.1, self.cell_count.1),
        )
    }

    /// The pixel rectangle of a rectangle of cells: its corner, then its
    /// width and height.
    pub fn rect_to_pixel(&self, x: u16, y: u16, width: u16, height: u16) -> (rect: (
        u32,
        u32,
        u32,
        u32,
    ))
        ensures
            rect.0 == cell_offset(x as int, self.pixel_size.0 as int, self.cell_count.0 as int),
            rect.1 == cell_offset(y as int, self.pixel_size.1 as int, self.cell_count.1 as int),
            rect.2 == cell_offset(
                width as int,
                self.pixel_size.0 as int,
                self.cell_count.0 as int,
            ),
            rect.3 == cell_offset(
                height as int,
                self.pixel_size.1 as int,
                self.cell_count.1 as int,
            ),
    {
        let (pixel_x, pixel_y) = self.cell_to_pixel(x, y);
        let pixel_width: u32 = scale_cells(width, self.pixel_size.0, self.cell_count.0);
        let pixel_height: u32 = scale_cells(height, self.pixel_size.1, self.cell_count.1);
        (pixel_x, pixel_y, pixel_width, pixel_height)
    }
}

/// The geometry of the terminal as far as it is known.
#[derive(Debug, Clone)]
pub struct Viewport {
    /// The last geometry that was set; `None` while it is unknown.
    pub dimensions: Option<TerminalDimensions>,
}

impl Viewport {
    /// A viewport whose geometry is unknown.
    pub fn new() -> (viewport: Self)
        ensures
            viewport.dimensions is None,
    {
        Viewport { dimensions: None }
    }

    /// Records the geometry.
    pub fn set_dimensions(&mut self, dimensions: TerminalDimensions)
        ensures
            final(self).dimensions == Some(dimensions),
    {
        self.dimensions = Some(dimensions);
    }

    /// The geometry, if it is known.
    pub fn get_dimensions(&self) -> (dimensions: Option<TerminalDimensions>)
        ensures
            dimensions == self.dimensions,
    {
        self.dimensions
    }

    /// Whether the geometry is known.
    pub fn has_dimensions(&self) -> (known: bool)
        ensures
            known == self.dimensions is Some,
    {
        self.dimensions.is_some()
    }

    /// The known geometry, or `fallback` while it is unknown.
    pub fn dimensions_or(&self, fallback: TerminalDimensions) -> (dimensions: TerminalDimensions)
        ensures
            dimensions == (match self.dimensions {
                Some(d) => d,
                None => fallback,
            }),
    {
        match self.dimensions {
            Some(d) => d,
            None => fallback,
        }
    }

    /// The pixel rectangle of a rectangle of cells, if the geometry is known.
    pub fn convert_rect_to_pixels(&self, x: u16, y: u16, width: u16, height: u16) -> (rect: Option<
        (u32, u32, u32, u32),
    >)
        ensures
            match self.dimensions {
                None => rect is None,
                Some(d) => rect == Some(
                    (
                        cell_offset(x as int, d.pixel_size.0 as int, d.cell_count.0 as int) as u32,
                        cell_offset(y as int, d.pixel_size.1 as int, d.cell_count.1 as int) as u32,
                        cell_offset(
                            width as int,
                            d.pixel_size.0 as int,
                            d.cell_count.0 as int,
                        ) as u32,
                        cell_offset(
                            height as int,
                            d.pixel_size.1 as int,
                            d.cell_count.1 as int,
                        ) as u32,
                    ),
                ),
            },
    {
        match self.dimensions {
            Some(d) => Some(d.rect_to_pixel(x, y, width, height)),
            None => None,
        }
    }

    /// Takes the replies of the terminal to the two size queries, each
    /// `None` where the terminal did not answer in time. Where both
    /// answered and the answers are the replies to the queries, the geometry
    /// is recorded. Where one did not answer, the geometry stays as it is
    /// and the result is `NoDimensions`; where an answer is not understood,
    /// the geometry stays as it is and the result is a `ParseError`.
    pub fn apply_replies(&mut self, pixel_reply: Option<&str>, cell_reply: Option<&str>) -> (result:
        Result<TerminalDimensions, ViewportError>)
        ensures
            pixel_reply is None || cell_reply is None ==> result == Err::<
                TerminalDimensions,
                ViewportError,
            >(ViewportError::NoDimensions) && final(self).dimensions == old(self).dimensions,
            pixel_reply is Some && cell_reply is Some ==> (match replies_dimensions(
                pixel_reply->0@,
                cell_reply->0@,
            ) {
                Some(d) => result == Ok::<TerminalDimensions, ViewportError>(d) && final(self).dimensions == Some(d),
                None => (result matches Err(ViewportError::ParseError(msg)) && msg@
                    == "unexpected reply to a size query"@) && final(self).dimensions == old(self).dimensions,
            }),
    {
        let (pixel_text, cell_text) = match (pixel_reply, cell_reply) {
            (Some(p), Some(c)) => (p, c),
            _ => {
                return Err(ViewportError::NoDimensions);
            },
        };
        let geometry = match (parse_size_reply(pixel_text), parse_size_reply(cell_text)) {
            (Some(p), Some(c)) => geometry_of_replies(p, c),
            _ => None,
        };
        match geometry {
            Some(dimensions) => {
                self.dimensions = Some(dimensions);
                Ok(dimensions)
            },
            None => Err(
                ViewportError::ParseError(String::from_str("unexpected reply to a size query")),
            ),
        }
    }

    /// Forgets the geometry.
    pub fn clear(&mut self)
        ensures
            final(self).dimensions is None,
    {
        self.dimensions = None;
    }
}

impl Default for Viewport {
    fn default() -> (viewport: Self)
        ensures
            viewport.dimensions is None,
    {
        Self::new()
    }
}

/// The request for the size of the text area in pixels.
pub fn pixel_size_query() -> (query: &'static str)
    ensures
        query@ == "\x1b[14t"@,
{
    "\x1b[14t"
}

/// The request for the size of the grid of cells.
pub fn cell_count_query() -> (query: &'static str)
    ensures
        query@ == "\x1b[18t"@,
{
    "\x1b[18t"
}

/// The status code of a reply that gives the size in pixels.
pub const PIXEL_SIZE_CODE: u32 = 4;

/// The status code of a reply that gives the number of cells.
pub const CELL_COUNT_CODE: u32 = 8;

/// A reply of the terminal to a size query: a status code, then two
/// numbers, the height or the rows first, the width or the columns second.
#[derive(Debug, Clone, Copy, PartialEq, Eq)]
pub struct SizeReply {
    pub code: u32,
    pub first: u32,
    pub second: u32,
}

/// The reply as the terminal writes it: the escape character and `[`, then
/// the three numbers separated by `;`, then `t`.
pub open spec fn reply_text(reply: SizeReply) -> Seq<char> {
    seq!['\x1b', '['] + decimal(reply.code as nat) + seq![';'] + decimal(reply.first as nat)
        + seq![';'] + decimal(reply.second as nat) + seq!['t']
}

/// Where the status code ends in the text of a reply.
pub open spec fn code_end(reply: SizeReply) -> int {
    2 + decimal(reply.code as nat).len() as int
}

/// Where the first number ends in the text of a reply.
pub open spec fn first_end(reply: SizeReply) -> int {
    code_end(reply) + 1 + decimal(reply.first as nat).len() as int
}

/// Where the second number ends in the text of a reply.
pub open spec fn second_end(reply: SizeReply) -> int {
    first_end(reply) + 1 + decimal(reply.second as nat).len() as int
}

/// `text` reads from left to right as `reply`: each number is found where
/// the one before it ended, and each is followed by its separator.
pub open spec fn reads_as(text: Seq<char>, reply: SizeReply) -> bool {
    &&& text.len() == second_end(reply) + 1
    &&& text[0] == '\x1b'
    &&& text[1] == '['
    &&& spec_number_at(text, 2) == Some((reply.code, code_end(reply)))
    &&& text[code_end(reply)] == ';'
    &&& spec_number_at(text, code_end(reply) + 1) == Some((reply.first, first_end(reply)))
    &&& text[first_end(reply)] == ';'
    &&& spec_number_at(text, first_end(reply) + 1) == Some((reply.second, second_end(reply)))
    &&& text[second_end(reply)] == 't'
}

/// The text of a reply reads as that reply.
pub proof fn lemma_reply_reads_back(reply: SizeReply)
    ensures
        reads_as(reply_text(reply), reply),
{
    let text = reply_text(reply);
    let d1 = decimal(reply.code as nat);
    let d2 = decimal(reply.first as nat);
    let d3 = decimal(reply.second as nat);
    let a = code_end(reply);
    let b = first_end(reply);
    let c = second_end(reply);
    lemma_decimal_is_numeral(reply.code as nat);
    lemma_decimal_is_numeral(reply.first as nat);
    lemma_decimal_is_numeral(reply.second as nat);
    assert(text.subrange(2, a) =~= d1);
    assert(text.subrange(a + 1, b) =~= d2);
    assert(text.subrange(b + 1, c) =~= d3);
    assert forall|i: int| 2 <= i < a implies is_decimal_digit(#[trigger] text[i]) by {
        assert(text[i] == d1[i - 2]);
    }
    assert forall|i: int| a + 1 <= i < b implies is_decimal_digit(#[trigger] text[i]) by {
        assert(text[i] == d2[i - a - 1]);
    }
    assert forall|i: int| b + 1 <= i < c implies is_decimal_digit(#[trigger] text[i]) by {
        assert(text[i] == d3[i - b - 1]);
    }
    lemma_digits_end_is_unique(text, 2, a);
    lemma_digits_end_is_unique(text, a + 1, b);
    lemma_digits_end_is_unique(text, b + 1, c);
}

/// Two replies with the same text are the same reply.
pub proof fn lemma_reply_text_is_injective(a: SizeReply, b: SizeReply)
    requires
        reply_text(a) == reply_text(b),
    ensures
        a == b,
{
    lemma_reply_reads_back(a);
    lemma_reply_reads_back(b);
}

/// The reply that is written in `text`; `None` where `text` is not the text
/// of a reply.
pub open spec fn spec_parse_size_reply(text: Seq<char>) -> Option<SizeReply> {
    if exists|r: SizeReply| text == reply_text(r) {
        Some(choose|r: SizeReply| text == reply_text(r))
    } else {
        None
    }
}

/// Reads a reply of the terminal. The result is `None` exactly where the
/// text is not the text of a reply.
pub fn parse_size_reply(reply: &str) -> (parsed: Option<SizeReply>)
    ensures
        parsed == spec_parse_size_reply(reply@),
        match parsed {
            Some(r) => reply@ == reply_text(r),
            None => forall|r: SizeReply| reply@ != reply_text(r),
        },
{
    let chars = chars_of(reply);
    let n: usize = chars.len();
    proof {
        assert forall|r: SizeReply| chars@ == reply_text(r) implies reads_as(chars@, r) by {
            lemma_reply_reads_back(r);
        }
    }
    if n < 2 || chars[0] != '\x1b' || chars[1] != '[' {
        return None;
    }
    let (code, a) = match number_at(&chars, 2) {
        Some(found) => found,
        None => {
            return None;
        },
    };
    if a >= n || chars[a] != ';' {
        return None;
    }
    let (first, b) = match number_at(&chars, a + 1) {
        Some(found) => found,
        None => {
            return None;
        },
    };
    if b >= n || chars[b] != ';' {
        return None;
    }
    let (second, c) = match number_at(&chars, b + 1) {
        Some(found) => found,
        None => {
            return None;
        },
    };
    if c >= n || chars[c] != 't' || c + 1 != n {
        return None;
    }
    let parsed = SizeReply { code, first, second };
    proof {
        lemma_digits_end(chars@, 2);
        lemma_digits_end(chars@, a + 1);
        lemma_digits_end(chars@, b + 1);
        let r1 = chars@.subrange(2, a as int);
        let r2 = chars@.subrange(a + 1, b as int);
        let r3 = chars@.subrange(b + 1, c as int);
        lemma_numeral_is_decimal(r1);
        lemma_numeral_is_decimal(r2);
        lemma_numeral_is_decimal(r3);
        assert(chars@ =~= reply_text(parsed));
        let chosen = choose|r: SizeReply| chars@ == reply_text(r);
        lemma_reply_text_is_injective(chosen, parsed);
    }
    Some(parsed)
}

/// The geometry that the two replies give: the reply to the pixel query
/// has the code 4 and gives height and width, the reply to the cell query
/// has the code 8 and gives rows and columns, each count at most 65535.
/// The result is width and height in pixels, then columns and rows.
pub open spec fn replies_geometry(pixels: SizeReply, cells: SizeReply) -> Option<
    (u32, u32, u16, u16),
> {
    if pixels.code == 4 && cells.code == 8 && cells.first <= u16::MAX && cells.second
        <= u16::MAX {
        Some((pixels.second, pixels.first, cells.second as u16, cells.first as u16))
    } else {
        None
    }
}

/// The geometry of a text area of `g.0` by `g.1` pixels and `g.2` by `g.3`
/// cells.
pub open spec fn dimensions_of(g: (u32, u32, u16, u16)) -> TerminalDimensions {
    TerminalDimensions {
        pixel_size: (g.0, g.1),
        cell_count: (g.2, g.3),
        cell_size: (
            ratio_floor(g.0 * 64, g.2 as int) as u64,
            ratio_floor(g.1 * 64, g.3 as int) as u64,
        ),
    }
}

/// The geometry that the two replies give, if they are the replies to the
/// two queries.
pub fn geometry_of_replies(pixels: SizeReply, cells: SizeReply) -> (geometry: Option<
    TerminalDimensions,
>)
    ensures
        geometry == (match replies_geometry(pixels, cells) {
            Some(g) => Some(dimensions_of(g)),
            None => None,
        }),
{
    if pixels.code == PIXEL_SIZE_CODE && cells.code == CELL_COUNT_CODE && cells.first
        <= u16::MAX as u32 && cells.second <= u16::MAX as u32 {
        Some(
            TerminalDimensions::new(
                pixels.second,
                pixels.first,
                cells.second as u16,
                cells.first as u16,
            ),
        )
    } else {
        None
    }
}

/// What the texts of the two replies say of the geometry; `None` where one
/// of them is not the reply to its query.
pub open spec fn replies_dimensions(pixel_text: Seq<char>, cell_text: Seq<char>) -> Option<
    TerminalDimensions,
> {
    match (spec_parse_size_reply(pixel_text), spec_parse_size_reply(cell_text)) {
        (Some(p), Some(c)) => match replies_geometry(p, c) {
            Some(g) => Some(dimensions_of(g)),
            None => None,
        },
        _ => None,
    }
}

/// How a viewport operation failed.
#[derive(Debug, Clone, PartialEq)]
pub enum ViewportError {
    /// The terminal could not be written to or read from.
    IoError(String),
    /// The terminal's reply was not understood.
    ParseError(String),
    /// The operation is not available.
    NotImplemented(String),
    /// The geometry is unknown.
    NoDimensions,
}

impl ViewportError {
    /// The text that describes the error.
    pub open spec fn description(&self) -> Seq<char> {
        match self {
            ViewportError::IoError(msg) => "Viewport IO error: "@ + msg@,
            ViewportError::ParseError(msg) => "Viewport parse error: "@ + msg@,
            ViewportError::NotImplemented(msg) => "Viewport feature not implemented: "@ + msg@,
            ViewportError::NoDimensions => "No terminal dimensions available"@,
        }
    }

    /// The error as a line of text.
    pub fn to_string(&self) -> (text: String)
        ensures
            text@ == self.description(),
    {
        match self {
            ViewportError::IoError(msg) => String::from_str("Viewport IO error: ").concat(
                msg.as_str(),
            ),
            ViewportError::ParseError(msg) => String::from_str("Viewport parse error: ").concat(
                msg.as_str(),
            ),
            ViewportError::NotImplemented(msg) => String::from_str(
                "Viewport feature not implemented: ",
            ).concat(msg.as_str()),
            ViewportError::NoDimensions => String::from_str("No terminal dimensions available"),
        }
    }
}

} // verus!
