//! The visual roles of widgets and the palette of each.

use vstd::prelude::*;
use crate::color::LogicalColor;

verus! {

/// A visual role. Matching on it is exhaustive, so a new role is a change
/// that every consumer sees at build time.
#[derive(Clone, Copy, Debug, PartialEq, Eq, Structural)]
pub enum Style {
    Header,
    Regular,
}

/// The three colors of a role: area fill, outline and text.
#[derive(Clone, Copy, Debug, PartialEq, Eq, Structural)]
pub struct Palette {
    pub fill: LogicalColor,
    pub outline: LogicalColor,
    pub foreground: LogicalColor,
}

/// The palette of each role, as packed logical colors: a header is yellow
/// (`0x07ff`) on blue (`0xf800`) with a white (`0xffff`) outline; regular
/// content is white on dark slate gray (`0x5286`: red 6, green 20, blue 10)
/// with a red (`0x001f`) outline.
pub open spec fn palette_of(style: Style) -> Palette {
    match style {
        Style::Header => Palette {
            fill: LogicalColor { bits: 0xf800 },
            outline: LogicalColor { bits: 0xffff },
            foreground: LogicalColor { bits: 0x07ff },
        },
        Style::Regular => Palette {
            fill: LogicalColor { bits: 0x5286 },
            outline: LogicalColor { bits: 0x001f },
            foreground: LogicalColor { bits: 0xffff },
        },
    }
}

/// The palette of `style`.
pub fn palette(style: Style) -> (p: Palette)
    ensures
        p == palette_of(style),
{
    match style {
        Style::Header => Palette {
            fill: LogicalColor::blue_color(),
            outline: LogicalColor::white(),
            foreground: LogicalColor::yellow(),
        },
        Style::Regular => Palette {
            fill: LogicalColor::dark_slate_gray(),
            outline: LogicalColor::red_color(),
            foreground: LogicalColor::white(),
        },
    }
}

/// Each role has its own palette, and within a palette the three colors are
/// pairwise distinct, so an outline always shows against its fill.
pub proof fn lemma_palettes_distinct(a: Style, b: Style)
    ensures
        palette_of(a).fill != palette_of(a).outline,
        palette_of(a).fill != palette_of(a).foreground,
        palette_of(a).outline != palette_of(a).foreground,
        a != b ==> palette_of(a).fill != palette_of(b).fill,
        a != b ==> palette_of(a) != palette_of(b),
{
}

} // verus!
