//! The screen as the application sees it: a list of drawing commands in
//! logical colors and coordinates, which the surface adapter then carries
//! out on the panel in one pass.

use vstd::prelude::*;
use crate::color::LogicalColor;
use crate::geometry::{Point, Rectangle, Size};
use crate::layout::{center_on, centered_on};
use crate::style::{Style, palette_of};
use crate::widget::{
    CONTAINER_STROKE, MAX_MARGIN, MAX_TEXT, StyledRect, TextBlock, TextBlockView, TextRun, TextRunView,
    text_block_of,
};

verus! {

/// One drawing command.
#[derive(Debug)]
pub enum Command {
    /// Fill the whole surface with a color.
    Clear(LogicalColor),
    /// Fill an area with a color.
    Fill(Rectangle, LogicalColor),
    /// Draw a run of text.
    Text(TextRun),
    /// Draw a text block.
    Block(TextBlock),
}

/// What a [`Command`] holds, with text as characters.
pub enum CommandView {
    Clear(LogicalColor),
    Fill(Rectangle, LogicalColor),
    Text(TextRunView),
    Block(TextBlockView),
}

impl View for Command {
    type V = CommandView;

    open spec fn view(&self) -> CommandView {
        match self {
            Command::Clear(c) => CommandView::Clear(*c),
            Command::Fill(a, c) => CommandView::Fill(*a, *c),
            Command::Text(t) => CommandView::Text(t@),
            Command::Block(b) => CommandView::Block(b@),
        }
    }
}

/// The color the screen is cleared to when nothing else is asked for.
pub open spec fn root_background() -> LogicalColor {
    LogicalColor { bits: 0 }
}

/// The margin of the block that an alert shows.
pub const ALERT_MARGIN: u32 = 16;

/// The screen: the commands recorded since they were last taken.
pub struct TFT {
    commands: Vec<Command>,
}

impl View for TFT {
    type V = Seq<CommandView>;

    closed spec fn view(&self) -> Seq<CommandView> {
        self.commands@.map_values(|c: Command| c@)
    }
}

impl TFT {
    /// A screen with no commands recorded.
    pub fn new() -> (t: TFT)
        ensures
            t@ == Seq::<CommandView>::empty(),
    {
        let t = TFT { commands: Vec::new() };
        assert(t@ =~= Seq::<CommandView>::empty());
        t
    }

    fn record(&mut self, c: Command)
        ensures
            final(self)@ == old(self)@.push(c@),
    {
        self.commands.push(c);
        assert(final(self)@ =~= old(self)@.push(c@));
    }

    /// Hands out the recorded commands, in the order recorded, and starts
    /// afresh.
    pub fn take(&mut self) -> (r: Vec<Command>)
        ensures
            r@.map_values(|c: Command| c@) == old(self)@,
            final(self)@ == Seq::<CommandView>::empty(),
    {
        let mut r: Vec<Command> = Vec::new();
        std::mem::swap(&mut r, &mut self.commands);
        assert(final(self)@ =~= Seq::<CommandView>::empty());
        r
    }

    /// Clears the whole screen to `color`.
    pub fn clear(&mut self, color: LogicalColor)
        ensures
            final(self)@ == old(self)@.push(CommandView::Clear(color)),
    {
        self.record(Command::Clear(color));
    }

    /// Clears the whole screen to the root background, black.
    pub fn clear_root(&mut self)
        ensures
            final(self)@ == old(self)@.push(CommandView::Clear(root_background())),
    {
        self.record(Command::Clear(LogicalColor::black()));
    }

    /// Clears the `w` by `h` area at `(x, y)` to black.
    pub fn part_clear(&mut self, x: i32, y: i32, w: u32, h: u32)
        ensures
            final(self)@ == old(self)@.push(
                CommandView::Fill(
                    Rectangle { top_left: Point { x, y }, size: Size { width: w, height: h } },
                    root_background(),
                ),
            ),
    {
        let area = Rectangle { top_left: Point { x, y }, size: Size { width: w, height: h } };
        self.record(Command::Fill(area, LogicalColor::black()));
    }

    /// Wraps `text` in a margin of `margin` pixels: a regular container sized
    /// to the text's box plus `margin` both ways, holding that box
    /// `margin / 2` in from its left and top edges and `margin - margin / 2`
    /// in from its right and bottom edges, with the text at
    /// `(margin / 2, margin / 2)`.
    pub fn contained_text(text: &str, margin: u32) -> (r: TextBlock)
        requires
            text@.len() <= MAX_TEXT,
            margin <= MAX_MARGIN,
        ensures
            r@ == text_block_of(text@, margin),
            r.label.position == (Point { x: (margin / 2) as i32, y: (margin / 2) as i32 }),
            r.background.area.size.width == r.label_box.size.width + margin,
            r.background.area.size.height == r.label_box.size.height + margin,
            r.label_box.top_left.x == r.background.area.top_left.x + margin / 2,
            r.label_box.top_left.y == r.background.area.top_left.y + margin / 2,
            r.background.area.top_left.x + r.background.area.size.width
                == r.label_box.top_left.x + r.label_box.size.width + (margin - margin / 2),
            r.background.area.top_left.y + r.background.area.size.height
                == r.label_box.top_left.y + r.label_box.size.height + (margin - margin / 2),
            r.background.style == Style::Regular,
            r.background.stroke_width == 1,
            r.label.color == palette_of(r.background.style).foreground,
    {
        let half: i32 = (margin / 2) as i32;
        let at = Point { x: half, y: half };
        let b = crate::widget::measure_text(text, at);
        let palette = crate::style::palette(Style::Regular);
        let label = TextRun { text: text.to_string(), position: at, color: palette.foreground, centered: false };
        let background = StyledRect {
            area: Rectangle {
                top_left: Point { x: b.top_left.x - half, y: b.top_left.y - half },
                size: Size { width: b.size.width + margin, height: b.size.height + margin },
            },
            style: Style::Regular,
            stroke_width: CONTAINER_STROKE,
        };
        TextBlock { label, label_box: b, background }
    }

    /// Shows `text` in a block centered on `area`, the screen's current
    /// box, after clearing the screen to the root background if `clear`
    /// holds. Returns whether the block was placed: it is not where centering
    /// it would take a coordinate out of `i32`.
    pub fn fullscreen_alert(&mut self, area: Rectangle, text: &str, clear: bool) -> (placed: bool)
        requires
            text@.len() <= MAX_TEXT,
        ensures
            ({
                let cleared = if clear {
                    old(self)@.push(CommandView::Clear(root_background()))
                } else {
                    old(self)@
                };
                match centered_on(text_block_of(text@, ALERT_MARGIN), area) {
                    Some(b) => placed && final(self)@ == cleared.push(CommandView::Block(b)),
                    None => !placed && final(self)@ == cleared,
                }
            }),
    {
        if clear {
            self.clear_root();
        }
        let block = Self::contained_text(text, ALERT_MARGIN);
        match center_on(block, area) {
            Some(b) => {
                self.record(Command::Block(b));
                true
            },
            None => false,
        }
    }

    /// Writes `text` in white, centered on `(x, y)`.
    pub fn println(&mut self, text: &str, x: i32, y: i32)
        ensures
            final(self)@ == old(self)@.push(
                CommandView::Text(
                    TextRunView {
                        text: text@,
                        position: Point { x, y },
                        color: LogicalColor { bits: 0xffff },
                        centered: true,
                    },
                ),
            ),
    {
        let run = TextRun {
            text: text.to_string(),
            position: Point { x, y },
            color: LogicalColor::white(),
            centered: true,
        };
        self.record(Command::Text(run));
    }
}

} // verus!
