//! Points, sizes and rectangles in pixel units, and the horizontal mirror of
//! the panel.

use vstd::prelude::*;

verus! {

/// Whether `v` is a value of `i32`.
pub open spec fn fits_i32(v: int) -> bool {
    i32::MIN <= v <= i32::MAX
}

#[derive(Clone, Copy, Debug, PartialEq, Eq, Structural)]
pub struct Point {
    pub x: i32,
    pub y: i32,
}

#[derive(Clone, Copy, Debug, PartialEq, Eq, Structural)]
pub struct Size {
    pub width: u32,
    pub height: u32,
}

/// An axis-aligned rectangle: its top-left corner and its size.
#[derive(Clone, Copy, Debug, PartialEq, Eq, Structural)]
pub struct Rectangle {
    pub top_left: Point,
    pub size: Size,
}

/// The offset from a rectangle's left (or top) edge to its last column (or
/// row), taking an empty extent as one pixel and a larger one than `i32` holds
/// as `i32::MAX`.
pub open spec fn last_offset(extent: u32) -> int {
    if extent == 0 {
        0
    } else if extent > i32::MAX {
        i32::MAX - 1
    } else {
        extent - 1
    }
}

impl Rectangle {
    /// The x coordinate of the rectangle's center column, rounded left.
    pub open spec fn center_x(self) -> int {
        self.top_left.x + last_offset(self.size.width) / 2
    }

    /// The y coordinate of the rectangle's center row, rounded toward the top.
    pub open spec fn center_y(self) -> int {
        self.top_left.y + last_offset(self.size.height) / 2
    }

    /// The x coordinate of the rectangle's last column.
    pub open spec fn right(self) -> int {
        self.top_left.x + last_offset(self.size.width)
    }

    /// The y coordinate of the rectangle's last row.
    pub open spec fn bottom(self) -> int {
        self.top_left.y + last_offset(self.size.height)
    }

    /// The rectangle moved by `(dx, dy)`.
    pub open spec fn moved(self, dx: int, dy: int) -> Rectangle {
        Rectangle {
            top_left: Point { x: (self.top_left.x + dx) as i32, y: (self.top_left.y + dy) as i32 },
            size: self.size,
        }
    }
}

/// Where a column `x` of a surface `width` pixels wide lands once the
/// surface is mirrored left to right.
pub open spec fn mirror_spec(width: int, x: int) -> int {
    width - x - 1
}

/// The mirrored column as an `i32`, or `None` where it is no `i32`: such a
/// column lies off any surface.
pub open spec fn mirrored(width: u32, x: i32) -> Option<i32> {
    if fits_i32(mirror_spec(width as int, x as int)) {
        Some(mirror_spec(width as int, x as int) as i32)
    } else {
        None
    }
}

/// Mirrors column `x` on a surface `width` pixels wide: `width - x - 1`.
pub fn mirror_x(width: u32, x: i32) -> (r: Option<i32>)
    ensures
        r == mirrored(width, x),
{
    let m: i64 = width as i64 - x as i64 - 1;
    if i32::MIN as i64 <= m && m <= i32::MAX as i64 {
        Some(m as i32)
    } else {
        None
    }
}

/// On a surface `w` wide, every column of `[0, w)` has a mirror image
/// `w - x - 1` in `[0, w)`, and mirroring that image gives `x` back.
pub proof fn lemma_mirror_involution(w: u32, x: i32)
    requires
        0 <= x < w,
        fits_i32(mirror_spec(w as int, x as int)),
    ensures
        mirrored(w, x) == Some((w - x - 1) as i32),
        0 <= w - x - 1 < w,
        mirrored(w, (w - x - 1) as i32) == Some(x),
{
}

} // verus!
