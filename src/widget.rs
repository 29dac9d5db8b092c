//! Widgets: immutable descriptions of what to draw, built fresh for each
//! frame and evaluated against a surface only when drawn.

use vstd::prelude::*;
use crate::color::LogicalColor;
use crate::geometry::{Point, Rectangle, Size};
use crate::style::Style;
use embedded_graphics::geometry::Dimensions as _;

verus! {

/// A run of text in the 6x10 mono font, placed by its position on the
/// alphabetic baseline.
#[derive(Debug)]
pub struct TextRun {
    pub text: String,
    pub position: Point,
    pub color: LogicalColor,
    /// Whether `position` is the middle of the run rather than its start.
    pub centered: bool,
}

/// What a [`TextRun`] holds, with its text as characters.
pub struct TextRunView {
    pub text: Seq<char>,
    pub position: Point,
    pub color: LogicalColor,
    pub centered: bool,
}

impl View for TextRun {
    type V = TextRunView;

    open spec fn view(&self) -> TextRunView {
        TextRunView {
            text: self.text@,
            position: self.position,
            color: self.color,
            centered: self.centered,
        }
    }
}

/// A rectangle filled and outlined in the palette of `style`.
#[derive(Clone, Copy, Debug, PartialEq, Eq, Structural)]
pub struct StyledRect {
    pub area: Rectangle,
    pub style: Style,
    pub stroke_width: u32,
}

/// A text run layered over a styled background rectangle.
#[derive(Debug)]
pub struct TextBlock {
    pub label: TextRun,
    /// The box the label covers, as the font measures it.
    pub label_box: Rectangle,
    pub background: StyledRect,
}

/// What a [`TextBlock`] holds, with its label's text as characters.
pub struct TextBlockView {
    pub label: TextRunView,
    pub label_box: Rectangle,
    pub background: StyledRect,
}

impl View for TextBlock {
    type V = TextBlockView;

    open spec fn view(&self) -> TextBlockView {
        TextBlockView { label: self.label@, label_box: self.label_box, background: self.background }
    }
}

/// The box that a left-aligned run of `s` in the 6x10 mono font covers when
/// placed at `at` on the alphabetic baseline.
pub uninterp spec fn text_box(s: Seq<char>, at: Point) -> Rectangle;

/// Whether `s` is one line: it holds no line feed and no carriage return.
pub open spec fn single_line(s: Seq<char>) -> bool {
    forall|i: int| 0 <= i < s.len() ==> s[i] != '\n' && s[i] != '\r'
}

/// Relies on embedded-graphics `Text::bounding_box` (for `Text::new` with a
/// `MonoTextStyle` of `FONT_6X10`): the box depends on the text and the
/// position alone. Every line starts at `at.x`; line `k` covers the rows
/// from `at.y + 10 * k - 7` (the font's baseline is 7) down for ten pixels,
/// and is six pixels per character wide. Empty text gives an empty box at
/// `at`. Within these limits on length and position no coordinate it
/// computes leaves `i32`.
#[verifier::external_body]
pub(crate) fn measure_text(s: &str, at: Point) -> (r: Rectangle)
    requires
        s@.len() <= 1_000_000,
        -1_000_000_000 <= at.x <= 1_000_000_000,
        -1_000_000_000 <= at.y <= 1_000_000_000,
    ensures
        r == text_box(s@, at),
        r.size.width <= 6 * s@.len(),
        r.size.height <= 10 * (s@.len() + 1),
        r.top_left.x == at.x,
        at.y - 7 <= r.top_left.y <= at.y + 10 * s@.len(),
        s@.len() == 0 ==> r == (Rectangle { top_left: at, size: Size { width: 0, height: 0 } }),
        s@.len() > 0 && single_line(s@) ==> r == (Rectangle {
            top_left: Point { x: at.x, y: (at.y - 7) as i32 },
            size: Size { width: (6 * s@.len()) as u32, height: 10 },
        }),
{
    let style = embedded_graphics::mono_font::MonoTextStyle::new(
        &embedded_graphics::mono_font::ascii::FONT_6X10,
        embedded_graphics::pixelcolor::Bgr565::new(31, 63, 31),
    );
    let run = embedded_graphics::text::Text::new(s, embedded_graphics::geometry::Point::new(at.x, at.y), style);
    let b = run.bounding_box();
    Rectangle {
        top_left: Point { x: b.top_left.x, y: b.top_left.y },
        size: Size { width: b.size.width, height: b.size.height },
    }
}

/// The stroke width of a styled container's outline.
pub const CONTAINER_STROKE: u32 = 1;

/// A container at `position` of `size`, filled and outlined in the palette
/// of `style`, with a one-pixel outline.
pub fn styled_container(position: Point, size: Size, style: Style) -> (r: StyledRect)
    ensures
        r == (StyledRect { area: Rectangle { top_left: position, size }, style, stroke_width: 1 }),
{
    StyledRect { area: Rectangle { top_left: position, size }, style, stroke_width: CONTAINER_STROKE }
}

/// The most characters a text block holds.
pub const MAX_TEXT: usize = 1_000_000;

/// The widest margin a text block takes.
pub const MAX_MARGIN: u32 = 2_000_000_000;

/// The block that `TFT::contained_text` builds for `s` with margin `m`: the
/// text in the regular foreground at `(m / 2, m / 2)`, over a regular
/// container with a one-pixel outline whose size is the text's box grown by
/// `m` both ways. The container starts `m / 2` left of and above the text's
/// box, so the box lies `m / 2` inside its left and top edges and
/// `m - m / 2` inside its right and bottom edges: an odd margin leaves its
/// extra pixel at the right and the bottom.
pub open spec fn text_block_of(s: Seq<char>, m: u32) -> TextBlockView {
    let at = Point { x: (m / 2) as i32, y: (m / 2) as i32 };
    let b = text_box(s, at);
    TextBlockView {
        label: TextRunView { text: s, position: at, color: crate::style::palette_of(Style::Regular).foreground, centered: false },
        label_box: b,
        background: StyledRect {
            area: Rectangle {
                top_left: Point { x: (b.top_left.x - m / 2) as i32, y: (b.top_left.y - m / 2) as i32 },
                size: Size { width: (b.size.width + m) as u32, height: (b.size.height + m) as u32 },
            },
            style: Style::Regular,
            stroke_width: 1,
        },
    }
}

} // verus!
