//! The pixel buffer that one frame is composed in.

use vstd::prelude::*;

verus! {

/// A colour with its opacity, one byte per channel.
#[derive(Debug, Clone, Copy, PartialEq, Eq)]
pub struct Color {
    pub r: u8,
    pub g: u8,
    pub b: u8,
    pub a: u8,
}

/// The background of the reading zone.
pub open spec fn spec_background_color() -> Color {
    Color { r: 26, g: 27, b: 38, a: 255 }
}

/// The colour of the letters around the anchor.
pub open spec fn spec_text_color() -> Color {
    Color { r: 169, g: 177, b: 214, a: 255 }
}

/// The colour of the anchor letter.
pub open spec fn spec_anchor_color() -> Color {
    Color { r: 247, g: 118, b: 142, a: 255 }
}

/// The background of the reading zone.
#[verifier::when_used_as_spec(spec_background_color)]
pub fn background_color() -> (color: Color)
    ensures
        color == spec_background_color(),
{
    Color { r: 26, g: 27, b: 38, a: 255 }
}

/// The colour of the letters around the anchor.
#[verifier::when_used_as_spec(spec_text_color)]
pub fn text_color() -> (color: Color)
    ensures
        color == spec_text_color(),
{
    Color { r: 169, g: 177, b: 214, a: 255 }
}

/// The colour of the anchor letter.
#[verifier::when_used_as_spec(spec_anchor_color)]
pub fn anchor_color() -> (color: Color)
    ensures
        color == spec_anchor_color(),
{
    Color { r: 247, g: 118, b: 142, a: 255 }
}

/// Channel `i` of a colour, in the order red, green, blue, opacity.
pub open spec fn channel(color: Color, i: int) -> u8 {
    if i == 0 {
        color.r
    } else if i == 1 {
        color.g
    } else if i == 2 {
        color.b
    } else {
        color.a
    }
}

/// The bytes of `pixels` pixels that all have the colour `color`.
pub open spec fn filled(pixels: nat, color: Color) -> Seq<u8> {
    Seq::new(4 * pixels, |i: int| channel(color, i % 4))
}

/// `percent` hundredths of `length`, rounded down.
pub open spec fn fraction_of(length: int, percent: int) -> int {
    length * percent / 100
}

/// `percent` hundredths of `length`, for a `percent` of at most 100.
pub fn percent_of(length: u32, percent: u32) -> (part: u32)
    requires
        percent <= 100,
    ensures
        part == fraction_of(length as int, percent as int),
        part <= length,
{
    assert((length as int) * (percent as int) <= (length as int) * 100) by (nonlinear_arith)
        requires
            0 <= length,
            0 <= percent <= 100,
    ;
    let part: u64 = (length as u64) * (percent as u64) / 100;
    part as u32
}

/// Where the reading line lies, in hundredths of the canvas height.
pub const READING_LINE_PERCENT: u32 = 42;

/// One frame: a rectangle of pixels, four bytes each, row by row.
pub struct ReadingCanvas {
    /// The pixels: red, green, blue and opacity of each, row by row.
    pub buffer: Vec<u8>,
    /// Width and height in pixels.
    pub dimensions: (u32, u32),
    /// The colour that the canvas is cleared to.
    pub background_color: Color,
}

impl ReadingCanvas {
    /// The number of pixels.
    pub open spec fn pixel_count(&self) -> nat {
        (self.dimensions.0 as nat) * (self.dimensions.1 as nat)
    }

    /// The buffer holds four bytes for every pixel.
    pub open spec fn well_formed(&self) -> bool {
        self.buffer@.len() == 4 * self.pixel_count()
    }

    /// Every pixel has the background colour.
    pub open spec fn is_clear(&self) -> bool {
        self.buffer@ == filled(self.pixel_count(), self.background_color)
    }

    /// A canvas of the given size, cleared to the background colour.
    pub fn new(width: u32, height: u32) -> (canvas: Self)
        requires
            4 * ((width as nat) * (height as nat)) <= usize::MAX,
        ensures
            canvas.dimensions == (width, height),
            canvas.background_color == spec_background_color(),
            canvas.is_clear(),
            canvas.well_formed(),
    {
        let background = background_color();
        let mut canvas = ReadingCanvas {
            buffer: Vec::new(),
            dimensions: (width, height),
            background_color: background,
        };
        canvas.clear();
        canvas
    }

    /// The width in pixels.
    pub fn width(&self) -> (width: u32)
        ensures
            width == self.dimensions.0,
    {
        self.dimensions.0
    }

    /// The height in pixels.
    pub fn height(&self) -> (height: u32)
        ensures
            height == self.dimensions.1,
    {
        self.dimensions.1
    }

    /// Width and height in pixels.
    pub fn dimensions(&self) -> (dimensions: (u32, u32))
        ensures
            dimensions == self.dimensions,
    {
        self.dimensions
    }

    /// The pixels.
    pub fn buffer(&self) -> (buffer: &Vec<u8>)
        ensures
            buffer == &self.buffer,
    {
        &self.buffer
    }

    /// The pixels, to draw on them.
    pub fn buffer_mut(&mut self) -> (buffer: &mut Vec<u8>)
        ensures
            *buffer == old(self).buffer,
            final(self).buffer == *final(buffer),
            final(self).dimensions == old(self).dimensions,
            final(self).background_color == old(self).background_color,
    {
        &mut self.buffer
    }

    /// Gives every pixel the background colour.
    pub fn clear(&mut self)
        requires
            4 * old(self).pixel_count() <= usize::MAX,
        ensures
            final(self).dimensions == old(self).dimensions,
            final(self).background_color == old(self).background_color,
            final(self).is_clear(),
            final(self).well_formed(),
    {
        let color = self.background_color;
        let ghost count = self.pixel_count();
        assert((self.dimensions.0 as nat) * (self.dimensions.1 as nat) <= usize::MAX)
            by (nonlinear_arith)
            requires
                4 * ((self.dimensions.0 as nat) * (self.dimensions.1 as nat)) <= usize::MAX,
        ;
        let pixels: usize = (self.dimensions.0 as usize) * (self.dimensions.1 as usize);
        let mut buffer: Vec<u8> = Vec::new();
        let mut i: usize = 0;
        while i < pixels
            invariant
                i <= pixels,
                pixels == count,
                4 * count <= usize::MAX,
                buffer@ == filled(i as nat, color),
            decreases pixels - i,
        {
            buffer.push(color.r);
            buffer.push(color.g);
            buffer.push(color.b);
            buffer.push(color.a);
            assert(buffer@ =~= filled((i + 1) as nat, color));
            i += 1;
        }
        self.buffer = buffer;
    }

    /// The row of the reading line: 42 hundredths of the height.
    pub fn calculate_reading_line_y(&self) -> (y: u32)
        ensures
            y == fraction_of(self.dimensions.1 as int, 42),
    {
        percent_of(self.dimensions.1, READING_LINE_PERCENT)
    }
}

/// Two canvases of the same size and background hold the same pixels once
/// both are cleared.
pub proof fn lemma_clear_depends_on_geometry(a: ReadingCanvas, b: ReadingCanvas)
    requires
        a.is_clear(),
        b.is_clear(),
        a.dimensions == b.dimensions,
        a.background_color == b.background_color,
    ensures
        a.buffer@ == b.buffer@,
{
}

} // verus!
