//! The pixel renderer: where a word goes on the canvas, and the frame that
//! is sent to the terminal.

use vstd::prelude::*;
use vstd::string::StringExecFns;
use crate::canvas::{
    anchor_color, fraction_of, percent_of, spec_anchor_color, spec_text_color, text_color, Color,
    ReadingCanvas,
};
use crate::renderer::{anchor_out_of_bounds, out_of_bounds_message, RendererError};
use crate::spans::{grapheme_clusters, is_split, split_at_anchor, WordSpans};
use crate::transmit::{
    base64_len, base64_standard, chunk_count, delete_image, encode_base64, spec_delete_image,
    spec_transmit_at, transmit_graphics,
};
use crate::viewport::Viewport;

verus! {

/// The share of the terminal's height that the reading zone takes, in
/// hundredths.
pub const READING_ZONE_PERCENT: u32 = 85;

/// The font size of a new renderer: 24 pixels, in sixty-fourths of a pixel.
pub const DEFAULT_FONT_SIZE: u32 = 1536;

/// The measures of a font at one size, in sixty-fourths of a pixel.
#[derive(Debug, Clone, Copy, PartialEq, Eq)]
pub struct FontMetrics {
    /// From the baseline up to the top of the tallest letters.
    pub ascent: i32,
    /// From the baseline down to the lowest point of the letters: negative
    /// or zero.
    pub descent: i32,
    /// The space between two lines.
    pub line_gap: i32,
    /// From one baseline to the next.
    pub height: i32,
    /// The size that these measures were taken at.
    pub font_size: u32,
}

/// The measured widths of the spans that decide where a word goes, in
/// sixty-fourths of a pixel.
#[derive(Debug, Clone, Copy, PartialEq, Eq)]
pub struct SpanWidths {
    /// The width of everything before the anchor.
    pub prefix: u32,
    /// The width of the anchor.
    pub anchor: u32,
}

/// One piece of text to draw: where its top-left corner goes, in pixels of
/// the canvas, and in which colour.
#[derive(Debug, Clone, PartialEq, Eq)]
pub struct DrawText {
    pub text: String,
    pub x: i64,
    pub y: i64,
    pub color: Color,
}

/// The mathematical value of a [`DrawText`].
pub struct DrawTextView {
    pub text: Seq<char>,
    pub x: int,
    pub y: int,
    pub color: Color,
}

impl View for DrawText {
    type V = DrawTextView;

    open spec fn view(&self) -> DrawTextView {
        DrawTextView { text: self.text@, x: self.x as int, y: self.y as int, color: self.color }
    }
}

/// The values of a sequence of drawing steps.
pub open spec fn draw_views(draws: Seq<DrawText>) -> Seq<DrawTextView> {
    Seq::new(draws.len(), |i: int| draws[i]@)
}

/// The left edge of the anchor, in sixty-fourths of a pixel from `center`:
/// half the anchor lies on either side of the centre.
pub open spec fn anchor_left(center: int, widths: SpanWidths) -> int {
    center - widths.anchor / 2
}

/// Where the word starts: the centre less the prefix and half the anchor.
pub open spec fn start_x(center: int, widths: SpanWidths) -> int {
    center - (widths.prefix + widths.anchor / 2)
}

/// The left edge of the suffix: where the anchor ends.
pub open spec fn suffix_left(center: int, widths: SpanWidths) -> int {
    anchor_left(center, widths) + widths.anchor
}

/// The horizontal centre of a canvas, in sixty-fourths of a pixel.
pub open spec fn canvas_center(width: u32) -> int {
    width * 32
}

/// The top of the text block, in sixty-fourths of a pixel: the block, from
/// ascent to descent, has its middle on the reading line.
pub open spec fn text_top(line_y: int, metrics: FontMetrics) -> int {
    line_y * 64 - (metrics.ascent - metrics.descent) / 2
}

/// The baseline of the text, in sixty-fourths of a pixel.
pub open spec fn text_baseline(line_y: int, metrics: FontMetrics) -> int {
    text_top(line_y, metrics) + metrics.ascent
}

/// The pixel that a position in sixty-fourths of a pixel falls in.
pub open spec fn to_pixel(position: int) -> int {
    position / 64
}

/// What is drawn for a word: prefix, anchor and suffix from left to right,
/// prefix and suffix in the text colour and the anchor in its own, all with
/// the same top. An empty prefix or suffix is not drawn.
pub open spec fn spec_draw_plan(
    spans: WordSpans,
    canvas_width: u32,
    canvas_height: u32,
    metrics: FontMetrics,
    widths: SpanWidths,
) -> Seq<DrawTextView> {
    let center = canvas_center(canvas_width);
    let y = to_pixel(text_top(fraction_of(canvas_height as int, 42), metrics));
    let prefix = DrawTextView {
        text: spans.prefix@,
        x: to_pixel(start_x(center, widths)),
        y,
        color: spec_text_color(),
    };
    let anchor = DrawTextView {
        text: spans.anchor@,
        x: to_pixel(anchor_left(center, widths)),
        y,
        color: spec_anchor_color(),
    };
    let suffix = DrawTextView {
        text: spans.suffix@,
        x: to_pixel(suffix_left(center, widths)),
        y,
        color: spec_text_color(),
    };
    (if spans.prefix@.len() > 0 {
        seq![prefix]
    } else {
        Seq::empty()
    }) + seq![anchor] + (if spans.suffix@.len() > 0 {
        seq![suffix]
    } else {
        Seq::empty()
    })
}

/// The anchor stands with its middle on the centre, the prefix ends where
/// the anchor begins, and the suffix begins where the anchor ends.
pub proof fn lemma_anchor_is_centered(center: int, widths: SpanWidths)
    ensures
        anchor_left(center, widths) + widths.anchor / 2 == center,
        start_x(center, widths) + widths.prefix == anchor_left(center, widths),
        suffix_left(center, widths) == anchor_left(center, widths) + widths.anchor,
{
}

/// What is drawn for a word is decided by the parts of the word as texts:
/// two splits of the same clusters at the same anchor give the same plan.
pub proof fn lemma_plan_is_determined(
    first: WordSpans,
    second: WordSpans,
    clusters: Seq<Seq<char>>,
    anchor: int,
    canvas_width: u32,
    canvas_height: u32,
    metrics: FontMetrics,
    widths: SpanWidths,
)
    requires
        is_split(first, clusters, anchor),
        is_split(second, clusters, anchor),
    ensures
        spec_draw_plan(first, canvas_width, canvas_height, metrics, widths) == spec_draw_plan(
            second,
            canvas_width,
            canvas_height,
            metrics,
            widths,
        ),
{
}

/// The middle of the text block lies on the reading line.
pub proof fn lemma_block_is_centered(line_y: int, metrics: FontMetrics)
    ensures
        text_top(line_y, metrics) + (metrics.ascent - metrics.descent) / 2 == line_y * 64,
        text_baseline(line_y, metrics) - text_top(line_y, metrics) == metrics.ascent,
{
}

fn pixel_of(position: i64) -> (pixel: i64)
    requires
        -0x4000_0000_0000_0000 <= position <= 0x4000_0000_0000_0000,
    ensures
        pixel == to_pixel(position as int),
{
    if position >= 0 {
        position / 64
    } else {
        let up: i64 = -position;
        let q: i64 = (up + 63) / 64;
        -q
    }
}

fn draw_plan(
    spans: WordSpans,
    canvas_width: u32,
    canvas_height: u32,
    metrics: FontMetrics,
    widths: SpanWidths,
) -> (draws: Vec<DrawText>)
    ensures
        draw_views(draws@) == spec_draw_plan(spans, canvas_width, canvas_height, metrics, widths),
{
    let center: i64 = (canvas_width as i64) * 32;
    let line_y: i64 = percent_of(canvas_height, 42) as i64;
    let block: i64 = metrics.ascent as i64 - metrics.descent as i64;
    let half_block: i64 = pixel_floor_half(block);
    let top: i64 = line_y * 64 - half_block;
    let y: i64 = pixel_of(top);
    let anchor_x: i64 = center - (widths.anchor as i64) / 2;
    let prefix_x: i64 = center - ((widths.prefix as i64) + (widths.anchor as i64) / 2);
    let suffix_x: i64 = anchor_x + widths.anchor as i64;
    let mut draws: Vec<DrawText> = Vec::new();
    let WordSpans { prefix, anchor, suffix, prefix_clusters, suffix_clusters } = spans;
    let ghost first: Seq<DrawTextView> = if prefix@.len() > 0 {
        seq![
            DrawTextView {
                text: prefix@,
                x: to_pixel(prefix_x as int),
                y: y as int,
                color: spec_text_color(),
            },
        ]
    } else {
        Seq::empty()
    };
    if prefix.as_str().unicode_len() > 0 {
        draws.push(DrawText { text: prefix, x: pixel_of(prefix_x), y, color: text_color() });
    }
    assert(draw_views(draws@) =~= first);
    draws.push(DrawText { text: anchor, x: pixel_of(anchor_x), y, color: anchor_color() });
    let ghost second = first + seq![
        DrawTextView {
            text: anchor@,
            x: to_pixel(anchor_x as int),
            y: y as int,
            color: spec_anchor_color(),
        },
    ];
    assert(draw_views(draws@) =~= second);
    if suffix.as_str().unicode_len() > 0 {
        draws.push(DrawText { text: suffix, x: pixel_of(suffix_x), y, color: text_color() });
    }
    assert(draw_views(draws@) =~= spec_draw_plan(
        spans,
        canvas_width,
        canvas_height,
        metrics,
        widths,
    ));
    draws
}

fn pixel_floor_half(value: i64) -> (half: i64)
    requires
        -0x4000_0000_0000_0000 <= value <= 0x4000_0000_0000_0000,
    ensures
        half == value / 2,
{
    if value >= 0 {
        value / 2
    } else {
        let up: i64 = -value;
        let q: i64 = (up + 1) / 2;
        -q
    }
}

/// The measured widths that the placing of a word in an image of its own
/// needs, in sixty-fourths of a pixel.
#[derive(Debug, Clone, Copy, PartialEq, Eq)]
pub struct WordWidths {
    /// The width of everything before the anchor.
    pub prefix: u32,
    /// The width of the anchor.
    pub anchor: u32,
    /// The width of the whole word.
    pub word: u32,
}

/// An image just large enough for one word, and where on the screen it goes.
#[derive(Debug, Clone, PartialEq, Eq)]
pub struct WordImage {
    /// Width and height of the image in pixels.
    pub width: u32,
    pub height: u32,
    /// What is drawn on the image, which starts out fully transparent.
    pub draws: Vec<DrawText>,
    /// The pixel of the screen at which the top-left corner of the image
    /// goes.
    pub pos_x: u32,
    pub pos_y: u32,
}

/// The number of whole pixels that cover a length in sixty-fourths of a
/// pixel.
pub open spec fn pixels_covering(length: int) -> int {
    (length + 63) / 64
}

/// The pixel, counted from 0, in which a position lies; a position left of
/// the screen counts as 0.
pub open spec fn screen_pixel(position: int) -> int {
    if position < 0 {
        0
    } else {
        position / 64
    }
}

/// What is drawn into the image of a word: the parts from left to right,
/// each starting on a whole pixel after the one before it, all at the top of
/// the image. An empty prefix or suffix is not drawn.
pub open spec fn spec_word_draws(spans: WordSpans, widths: WordWidths) -> Seq<DrawTextView> {
    let anchor_x = pixels_covering(widths.prefix as int);
    let suffix_x = anchor_x + pixels_covering(widths.anchor as int);
    let prefix = DrawTextView { text: spans.prefix@, x: 0, y: 0, color: spec_text_color() };
    let anchor = DrawTextView {
        text: spans.anchor@,
        x: if spans.prefix@.len() > 0 {
            anchor_x
        } else {
            0
        },
        y: 0,
        color: spec_anchor_color(),
    };
    let suffix = DrawTextView {
        text: spans.suffix@,
        x: if spans.prefix@.len() > 0 {
            suffix_x
        } else {
            pixels_covering(widths.anchor as int)
        },
        y: 0,
        color: spec_text_color(),
    };
    (if spans.prefix@.len() > 0 {
        seq![prefix]
    } else {
        Seq::empty()
    }) + seq![anchor] + (if spans.suffix@.len() > 0 {
        seq![suffix]
    } else {
        Seq::empty()
    })
}

fn ceil_pixels(length: u32) -> (pixels: u32)
    ensures
        pixels == pixels_covering(length as int),
{
    ((length as u64 + 63) / 64) as u32
}

fn word_draws(spans: WordSpans, widths: WordWidths) -> (draws: Vec<DrawText>)
    ensures
        draw_views(draws@) == spec_word_draws(spans, widths),
{
    let WordSpans { prefix, anchor, suffix, prefix_clusters, suffix_clusters } = spans;
    let mut draws: Vec<DrawText> = Vec::new();
    let mut x: i64 = 0;
    let has_prefix: bool = prefix.as_str().unicode_len() > 0;
    let ghost first: Seq<DrawTextView> = if has_prefix {
        seq![DrawTextView { text: prefix@, x: 0, y: 0, color: spec_text_color() }]
    } else {
        Seq::empty()
    };
    if has_prefix {
        draws.push(DrawText { text: prefix, x: 0, y: 0, color: text_color() });
        x = ceil_pixels(widths.prefix) as i64;
    }
    assert(draw_views(draws@) =~= first);
    let ghost second = first + seq![
        DrawTextView { text: anchor@, x: x as int, y: 0, color: spec_anchor_color() },
    ];
    draws.push(DrawText { text: anchor, x, y: 0, color: anchor_color() });
    assert(draw_views(draws@) =~= second);
    x = x + ceil_pixels(widths.anchor) as i64;
    if suffix.as_str().unicode_len() > 0 {
        draws.push(DrawText { text: suffix, x, y: 0, color: text_color() });
    }
    assert(draw_views(draws@) =~= spec_word_draws(spans, widths));
    draws
}

/// A canvas with the word that goes on it.
pub struct ComposedFrame {
    /// The cleared canvas.
    pub canvas: ReadingCanvas,
    /// What is drawn on it, in order.
    pub draws: Vec<DrawText>,
}

/// The state of the pixel renderer.
pub struct KittyGraphicsRenderer {
    /// The geometry of the terminal.
    pub viewport: Viewport,
    /// The font size in sixty-fourths of a pixel.
    pub font_size: u32,
    /// The measures of the font at `font_size`; `None` while no font is
    /// loaded or measured.
    pub font_metrics: Option<FontMetrics>,
    /// The number that the next image gets.
    pub current_image_id: u32,
    /// The centre of the reading zone in pixels.
    pub reading_zone_center: (u32, u32),
}

/// The font size for a cell of the given height: five cells high, held at
/// the largest `u32`.
pub open spec fn font_size_for(cell_height: u64) -> int {
    if cell_height * 5 > u32::MAX {
        u32::MAX as int
    } else {
        cell_height * 5
    }
}

/// Whether a canvas of this size can be held in memory on this machine.
pub open spec fn canvas_fits(width: u32, height: u32) -> bool {
    4 * ((width as nat) * (height as nat)) <= usize::MAX
}

fn fits_in_memory(width: u32, height: u32) -> (fits: bool)
    ensures
        fits == canvas_fits(width, height),
{
    assert((width as nat) * (height as nat) <= 0xFFFF_FFFF * 0xFFFF_FFFF) by (nonlinear_arith)
        requires
            width <= 0xFFFF_FFFF,
            height <= 0xFFFF_FFFF,
    ;
    let pixels: u64 = (width as u64) * (height as u64);
    pixels <= (usize::MAX / 4) as u64
}

impl KittyGraphicsRenderer {
    /// A renderer with unknown geometry, no font, the default font size, and
    /// 1 as the number of the first image.
    pub fn new() -> (renderer: Self)
        ensures
            renderer.viewport.dimensions is None,
            renderer.font_size == 1536,
            renderer.font_metrics is None,
            renderer.current_image_id == 1,
            renderer.reading_zone_center == (0u32, 0u32),
    {
        KittyGraphicsRenderer {
            viewport: Viewport::new(),
            font_size: DEFAULT_FONT_SIZE,
            font_metrics: None,
            current_image_id: 1,
            reading_zone_center: (0, 0),
        }
    }

    /// Sets the centre of the reading zone, in pixels.
    pub fn set_reading_zone_center(&mut self, x: u32, y: u32)
        ensures
            final(self).reading_zone_center == (x, y),
            final(self).viewport == old(self).viewport,
            final(self).font_size == old(self).font_size,
            final(self).font_metrics == old(self).font_metrics,
            final(self).current_image_id == old(self).current_image_id,
    {
        self.reading_zone_center = (x, y);
    }

    /// Records the measures of the loaded font.
    pub fn set_font_metrics(&mut self, metrics: FontMetrics)
        ensures
            final(self).font_metrics == Some(metrics),
            final(self).viewport == old(self).viewport,
            final(self).font_size == old(self).font_size,
            final(self).current_image_id == old(self).current_image_id,
            final(self).reading_zone_center == old(self).reading_zone_center,
    {
        self.font_metrics = Some(metrics);
    }

    /// Sets the font size to five times the height of a cell. Measures that
    /// were taken at another size are dropped.
    pub fn calculate_font_size_from_cell_height(&mut self, cell_height: u64)
        ensures
            final(self).font_size == font_size_for(cell_height),
            final(self).font_metrics == (match old(self).font_metrics {
                Some(m) => if m.font_size == font_size_for(cell_height) {
                    Some(m)
                } else {
                    None
                },
                None => None,
            }),
            final(self).viewport == old(self).viewport,
            final(self).current_image_id == old(self).current_image_id,
            final(self).reading_zone_center == old(self).reading_zone_center,
    {
        let size: u32 = if cell_height > (u32::MAX / 5) as u64 {
            u32::MAX
        } else {
            (cell_height * 5) as u32
        };
        self.font_size = size;
        let keep: bool = match self.font_metrics {
            Some(m) => m.font_size == size,
            None => false,
        };
        if !keep {
            self.font_metrics = None;
        }
    }

    /// The height of the reading zone in pixels: 85 hundredths of the
    /// terminal's height; `None` while the geometry is unknown.
    pub fn get_reading_zone_height(&self) -> (height: Option<u32>)
        ensures
            match self.viewport.dimensions {
                Some(d) => height == Some(fraction_of(d.pixel_size.1 as int, 85) as u32),
                None => height is None,
            },
    {
        match self.viewport.get_dimensions() {
            Some(dims) => Some(percent_of(dims.pixel_size.1, READING_ZONE_PERCENT)),
            None => None,
        }
    }

    /// The row of the reading line in the reading zone: 42 hundredths of the
    /// zone's height; `None` while the geometry is unknown.
    pub fn calculate_vertical_center(&self) -> (y: Option<u32>)
        ensures
            match self.viewport.dimensions {
                Some(d) => y == Some(
                    fraction_of(fraction_of(d.pixel_size.1 as int, 85), 42) as u32,
                ),
                None => y is None,
            },
    {
        match self.get_reading_zone_height() {
            Some(zone_height) => Some(percent_of(zone_height, 42)),
            None => None,
        }
    }

    /// The height of a cell in sixty-fourths of a pixel; `None` while the
    /// geometry is unknown.
    pub fn get_cell_height(&self) -> (height: Option<u64>)
        ensures
            match self.viewport.dimensions {
                Some(d) => height == Some(d.cell_size.1),
                None => height is None,
            },
    {
        match self.viewport.get_dimensions() {
            Some(dims) => Some(dims.cell_size.1),
            None => None,
        }
    }

    /// The viewport, to set or to forget the geometry.
    pub fn viewport(&mut self) -> (viewport: &mut Viewport)
        ensures
            *viewport == old(self).viewport,
            final(self).viewport == *final(viewport),
            final(self).font_size == old(self).font_size,
            final(self).font_metrics == old(self).font_metrics,
            final(self).current_image_id == old(self).current_image_id,
            final(self).reading_zone_center == old(self).reading_zone_center,
    {
        &mut self.viewport
    }

    /// The font size in sixty-fourths of a pixel.
    pub fn font_size(&self) -> (size: u32)
        ensures
            size == self.font_size,
    {
        self.font_size
    }

    /// Pixel renderers place the anchor by pixels.
    pub fn supports_subpixel_ovp(&self) -> (supported: bool)
        ensures
            supported,
    {
        true
    }

    /// Where a word starts so that its anchor has its middle on the centre
    /// of the reading zone, in sixty-fourths of a pixel.
    pub fn calculate_start_x(&self, widths: SpanWidths) -> (x: i64)
        ensures
            x == start_x(self.reading_zone_center.0 * 64, widths),
    {
        Self::calculate_start_x_for_canvas(widths, (self.reading_zone_center.0 as i64) * 64)
    }

    /// Where a word starts so that its anchor has its middle on `center_x`,
    /// both in sixty-fourths of a pixel.
    pub fn calculate_start_x_for_canvas(widths: SpanWidths, center_x: i64) -> (x: i64)
        requires
            -0x4000_0000_0000_0000 <= center_x <= 0x4000_0000_0000_0000,
        ensures
            x == start_x(center_x as int, widths),
    {
        center_x - ((widths.prefix as i64) + (widths.anchor as i64) / 2)
    }

    /// A cleared canvas for the reading zone: as wide as the terminal and 85
    /// hundredths of its height. `None` while the geometry is unknown, and
    /// where such a canvas cannot be held in memory.
    pub fn create_canvas(&self) -> (canvas: Option<ReadingCanvas>)
        ensures
            match self.viewport.dimensions {
                Some(d) => if canvas_fits(
                    d.pixel_size.0,
                    fraction_of(d.pixel_size.1 as int, 85) as u32,
                ) {
                    canvas matches Some(c) && c.dimensions == (
                        d.pixel_size.0,
                        fraction_of(d.pixel_size.1 as int, 85) as u32,
                    ) && c.is_clear() && c.well_formed() && c.background_color
                        == crate::canvas::spec_background_color()
                } else {
                    canvas is None
                },
                None => canvas is None,
            },
    {
        match self.viewport.get_dimensions() {
            Some(dims) => {
                let width: u32 = dims.pixel_size.0;
                let height: u32 = percent_of(dims.pixel_size.1, READING_ZONE_PERCENT);
                if fits_in_memory(width, height) {
                    Some(ReadingCanvas::new(width, height))
                } else {
                    None
                }
            },
            None => None,
        }
    }

    /// Whether a word can be composed: the font is measured, the canvas can
    /// be cleared, and the anchor is a cluster of the word.
    pub open spec fn can_compose(
        &self,
        canvas: ReadingCanvas,
        word: Seq<char>,
        anchor_position: int,
    ) -> bool {
        &&& self.font_metrics is Some
        &&& canvas_fits(canvas.dimensions.0, canvas.dimensions.1)
        &&& 0 <= anchor_position < grapheme_clusters(word).len()
    }

    /// Composes `word` on `canvas`: clears the canvas and says what to draw
    /// on it so that the anchor has its middle at the middle of the canvas
    /// and the text block has its middle on the reading line. Where the word
    /// cannot be composed the canvas is left as it is and the result is
    /// `None`.
    pub fn composite_word(
        &self,
        canvas: &mut ReadingCanvas,
        word: &str,
        anchor_position: usize,
        widths: SpanWidths,
    ) -> (draws: Option<Vec<DrawText>>)
        ensures
            self.can_compose(*old(canvas), word@, anchor_position as int) ==> (draws matches Some(d)
                && final(canvas).is_clear()
                && final(canvas).well_formed()
                && final(canvas).dimensions == old(canvas).dimensions
                && final(canvas).background_color == old(canvas).background_color
                && exists|spans: WordSpans|
                is_split(spans, grapheme_clusters(word@), anchor_position as int)
                    && draw_views(d@) == spec_draw_plan(
                    spans,
                    old(canvas).dimensions.0,
                    old(canvas).dimensions.1,
                    self.font_metrics->0,
                    widths,
                )),
            !self.can_compose(*old(canvas), word@, anchor_position as int) ==> draws is None
                && *final(canvas) == *old(canvas),
    {
        let metrics = match self.font_metrics {
            Some(m) => m,
            None => {
                return None;
            },
        };
        if !fits_in_memory(canvas.dimensions.0, canvas.dimensions.1) {
            return None;
        }
        let spans = match split_at_anchor(word, anchor_position) {
            Ok(s) => s,
            Err(_) => {
                return None;
            },
        };
        canvas.clear();
        let draws = draw_plan(spans, canvas.dimensions.0, canvas.dimensions.1, metrics, widths);
        Some(draws)
    }

    /// Composes the frame for `word`: a canvas for the reading zone, cleared,
    /// and what to draw on it. An empty word needs no frame. An anchor that
    /// is no cluster of the word is an `InvalidArguments` error; unknown
    /// geometry and a missing font are `RenderFailed` errors.
    pub fn render_frame(&self, word: &str, anchor_position: usize, widths: SpanWidths) -> (result:
        Result<Option<ComposedFrame>, RendererError>)
        ensures
            word@.len() == 0 ==> result matches Ok(None),
            word@.len() > 0 && anchor_position >= grapheme_clusters(word@).len() ==> (
            result matches Err(RendererError::InvalidArguments(msg)) && msg@
                == out_of_bounds_message(
                anchor_position as nat,
                word@,
                grapheme_clusters(word@).len(),
            )),
            word@.len() > 0 && anchor_position < grapheme_clusters(word@).len() ==> (
            match self.viewport.dimensions {
                Some(d) => if canvas_fits(
                    d.pixel_size.0,
                    fraction_of(d.pixel_size.1 as int, 85) as u32,
                ) {
                    if self.font_metrics is Some {
                        result matches Ok(Some(frame)) && frame.canvas.dimensions == (
                            d.pixel_size.0,
                            fraction_of(d.pixel_size.1 as int, 85) as u32,
                        ) && frame.canvas.is_clear() && frame.canvas.well_formed()
                            && frame.canvas.background_color
                            == crate::canvas::spec_background_color() && exists|
                            spans: WordSpans,
                        |
                            is_split(spans, grapheme_clusters(word@), anchor_position as int)
                                && draw_views(frame.draws@) == spec_draw_plan(
                                spans,
                                frame.canvas.dimensions.0,
                                frame.canvas.dimensions.1,
                                self.font_metrics->0,
                                widths,
                            )
                    } else {
                        result matches Err(RendererError::RenderFailed(msg)) && msg@
                            == "Failed to composite word onto canvas"@
                    }
                } else {
                    result matches Err(RendererError::RenderFailed(msg)) && msg@
                        == "Failed to create canvas - viewport dimensions not available"@
                },
                None => result matches Err(RendererError::RenderFailed(msg)) && msg@
                    == "Failed to create canvas - viewport dimensions not available"@,
            }),
    {
        if word.unicode_len() == 0 {
            return Ok(None);
        }
        let count: usize = crate::spans::cluster_count(word);
        if anchor_position >= count {
            return Err(anchor_out_of_bounds(anchor_position, word, count));
        }
        let mut canvas = match self.create_canvas() {
            Some(c) => c,
            None => {
                return Err(
                    RendererError::RenderFailed(
                        String::from_str(
                            "Failed to create canvas - viewport dimensions not available",
                        ),
                    ),
                );
            },
        };
        match self.composite_word(&mut canvas, word, anchor_position, widths) {
            Some(draws) => Ok(Some(ComposedFrame { canvas, draws })),
            None => Err(
                RendererError::RenderFailed(
                    String::from_str("Failed to composite word onto canvas"),
                ),
            ),
        }
    }

    /// The base64 text of the canvas's pixels; `None` where the text would
    /// be longer than the machine can address.
    pub fn encode_image_base64(&self, canvas: &ReadingCanvas) -> (text: Option<String>)
        ensures
            base64_len(canvas.buffer@.len()) <= usize::MAX ==> (text matches Some(t) && t@
                == base64_standard(canvas.buffer@) && t@.len() == base64_len(
                canvas.buffer@.len(),
            )),
            base64_len(canvas.buffer@.len()) > usize::MAX ==> text is None,
    {
        encode_base64(canvas.buffer.as_slice())
    }

    /// The commands that send `canvas` as the image with the current number,
    /// placed at the top-left corner of the reading zone; `None` where the
    /// canvas cannot be encoded.
    pub fn frame_commands(&self, canvas: &ReadingCanvas) -> (commands: Option<Vec<String>>)
        ensures
            base64_len(canvas.buffer@.len()) > usize::MAX ==> commands is None,
            base64_len(canvas.buffer@.len()) <= usize::MAX ==> (commands matches Some(c) && c@.len()
                == chunk_count(base64_len(canvas.buffer@.len())) && forall|i: int|
                0 <= i < c@.len() ==> (#[trigger] c@[i])@ == spec_transmit_at(
                    self.current_image_id,
                    canvas.dimensions.0,
                    canvas.dimensions.1,
                    base64_standard(canvas.buffer@),
                    0,
                    0,
                    i,
                )),
    {
        match self.encode_image_base64(canvas) {
            Some(data) => Some(
                transmit_graphics(
                    self.current_image_id,
                    canvas.dimensions.0,
                    canvas.dimensions.1,
                    data.as_str(),
                    0,
                    0,
                ),
            ),
            None => None,
        }
    }

    /// Plans the image of one word: an image just large enough for the word,
    /// placed so that the anchor has its middle on the centre of the reading
    /// zone and the image has its middle on the reading line. An empty word
    /// needs no image. An anchor that is no cluster of the word is an
    /// `InvalidArguments` error; a missing font and a word without width or
    /// height are `RenderFailed` errors.
    pub fn render_word(&self, word: &str, anchor_position: usize, widths: WordWidths) -> (result:
        Result<Option<WordImage>, RendererError>)
        ensures
            word@.len() == 0 ==> result matches Ok(None),
            word@.len() > 0 && anchor_position >= grapheme_clusters(word@).len() ==> (
            result matches Err(RendererError::InvalidArguments(msg)) && msg@
                == out_of_bounds_message(
                anchor_position as nat,
                word@,
                grapheme_clusters(word@).len(),
            )),
            word@.len() > 0 && anchor_position < grapheme_clusters(word@).len() ==> (
            match self.font_metrics {
                None => result matches Err(RendererError::RenderFailed(msg)) && msg@
                    == "Font not initialized"@,
                Some(metrics) => if widths.word == 0 || metrics.height <= 0 {
                    result matches Err(RendererError::RenderFailed(msg)) && msg@
                        == "Failed to rasterize word"@
                } else {
                    result matches Ok(Some(image)) && image.width == pixels_covering(
                        widths.word as int,
                    ) && image.height == pixels_covering(metrics.height as int) && image.pos_x
                        == screen_pixel(
                        start_x(
                            self.reading_zone_center.0 * 64,
                            SpanWidths { prefix: widths.prefix, anchor: widths.anchor },
                        ),
                    ) && image.pos_y == (match self.viewport.dimensions {
                        Some(d) => {
                            let line = fraction_of(fraction_of(d.pixel_size.1 as int, 85), 42);
                            if line >= image.height / 2 {
                                line - image.height / 2
                            } else {
                                0
                            }
                        },
                        None => 0,
                    }) && exists|spans: WordSpans|
                        is_split(spans, grapheme_clusters(word@), anchor_position as int)
                            && draw_views(image.draws@) == spec_word_draws(spans, widths)
                },
            }),
    {
        if word.unicode_len() == 0 {
            return Ok(None);
        }
        let spans = match split_at_anchor(word, anchor_position) {
            Ok(s) => s,
            Err(e) => {
                return Err(e);
            },
        };
        let metrics = match self.font_metrics {
            Some(m) => m,
            None => {
                return Err(RendererError::RenderFailed(String::from_str("Font not initialized")));
            },
        };
        if widths.word == 0 || metrics.height <= 0 {
            return Err(RendererError::RenderFailed(String::from_str("Failed to rasterize word")));
        }
        let width: u32 = ceil_pixels(widths.word);
        let height: u32 = ceil_pixels(metrics.height as u32);
        let start: i64 = self.calculate_start_x(
            SpanWidths { prefix: widths.prefix, anchor: widths.anchor },
        );
        let pos_x: u32 = if start < 0 {
            0
        } else {
            (start / 64) as u32
        };
        let line: u32 = match self.calculate_vertical_center() {
            Some(y) => y,
            None => 0,
        };
        let pos_y: u32 = if line >= height / 2 {
            line - height / 2
        } else {
            0
        };
        let draws = word_draws(spans, widths);
        Ok(Some(WordImage { width, height, draws, pos_x, pos_y }))
    }

    /// Records that the frame with the current number was sent: the next
    /// image gets the next number.
    pub fn frame_sent(&mut self)
        requires
            old(self).current_image_id < u32::MAX,
        ensures
            final(self).current_image_id == old(self).current_image_id + 1,
            final(self).viewport == old(self).viewport,
            final(self).font_size == old(self).font_size,
            final(self).font_metrics == old(self).font_metrics,
            final(self).reading_zone_center == old(self).reading_zone_center,
    {
        self.current_image_id += 1;
    }

    /// The command that removes the image that was sent last; `None` before
    /// the first image.
    pub fn clear_command(&self) -> (command: Option<String>)
        ensures
            self.current_image_id > 1 ==> (command matches Some(c) && c@ == spec_delete_image(
                (self.current_image_id - 1) as u32,
            )),
            self.current_image_id <= 1 ==> command is None,
    {
        if self.current_image_id > 1 {
            Some(delete_image(self.current_image_id - 1))
        } else {
            None
        }
    }
}

} // verus!
