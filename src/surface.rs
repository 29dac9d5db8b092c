//! What the mirrored drawing surface hands the panel for each drawing
//! operation.
//!
//! Every operation takes the width of the underlying surface as queried for
//! that operation. Columns are mirrored (`x` becomes `width - x - 1`), rows
//! pass through, and colors move to the driver's channel order. A pixel whose
//! mirrored column is no `i32` lies off any surface and is left out.

use vstd::prelude::*;
use crate::color::{LogicalColor, NativeColor, native_of, to_native};
use crate::geometry::{Point, Rectangle, fits_i32, mirror_spec, mirrored, mirror_x};

verus! {

/// A pixel as the application draws it.
#[derive(Clone, Copy, Debug, PartialEq, Eq, Structural)]
pub struct LogicalPixel {
    pub point: Point,
    pub color: LogicalColor,
}

/// A pixel as the panel receives it.
#[derive(Clone, Copy, Debug, PartialEq, Eq, Structural)]
pub struct NativePixel {
    pub point: Point,
    pub color: NativeColor,
}

/// The panel pixel for `p`, if its mirrored column is an `i32`.
pub open spec fn flipped(width: u32, p: LogicalPixel) -> Option<NativePixel> {
    match mirrored(width, p.point.x) {
        Some(x) => Some(NativePixel { point: Point { x, y: p.point.y }, color: native_of(p.color) }),
        None => None,
    }
}

/// The panel pixels for `ps`, in the same order.
pub open spec fn flipped_seq(width: u32, ps: Seq<LogicalPixel>) -> Seq<NativePixel>
    decreases ps.len(),
{
    if ps.len() == 0 {
        Seq::empty()
    } else {
        let rest = flipped_seq(width, ps.drop_last());
        match flipped(width, ps.last()) {
            Some(q) => rest.push(q),
            None => rest,
        }
    }
}

/// Maps one pixel onto the panel.
pub fn flip_pixel(width: u32, p: LogicalPixel) -> (r: Option<NativePixel>)
    ensures
        r == flipped(width, p),
{
    match mirror_x(width, p.point.x) {
        Some(x) => Some(NativePixel { point: Point { x, y: p.point.y }, color: to_native(p.color) }),
        None => None,
    }
}

/// Maps a sequence of pixels onto the panel, keeping their order, so that a
/// later pixel on the same spot still lands last.
pub fn flip_pixels(width: u32, pixels: &Vec<LogicalPixel>) -> (r: Vec<NativePixel>)
    ensures
        r@ == flipped_seq(width, pixels@),
{
    let mut out: Vec<NativePixel> = Vec::new();
    let mut i: usize = 0;
    while i < pixels.len()
        invariant
            i <= pixels@.len(),
            out@ == flipped_seq(width, pixels@.subrange(0, i as int)),
        decreases pixels@.len() - i,
    {
        let ghost prefix = pixels@.subrange(0, i as int + 1);
        assert(prefix.drop_last() =~= pixels@.subrange(0, i as int));
        if let Some(q) = flip_pixel(width, pixels[i]) {
            out.push(q);
        }
        i = i + 1;
    }
    assert(pixels@.subrange(0, i as int) =~= pixels@);
    out
}

/// The logical point of the `i`-th pixel of `area` in raster order: left to
/// right within a row, rows from the top down.
pub open spec fn raster_point(area: Rectangle, i: int) -> (int, int) {
    (area.top_left.x + i % (area.size.width as int), area.top_left.y + i / (area.size.width as int))
}

/// The panel pixel for the `i`-th raster position of `area` colored `c`, if
/// its mirrored column and its row are `i32` values.
pub open spec fn fill_pixel(width: u32, area: Rectangle, i: int, c: LogicalColor) -> Option<NativePixel> {
    let (x, y) = raster_point(area, i);
    let mx = mirror_spec(width as int, x);
    if fits_i32(mx) && fits_i32(y) {
        Some(NativePixel { point: Point { x: mx as i32, y: y as i32 }, color: native_of(c) })
    } else {
        None
    }
}

/// How many pixels a fill of `area` from `n` colors paints: one per color,
/// as far as the area reaches.
pub open spec fn fill_count(area: Rectangle, n: int) -> int {
    let cells = area.size.width as int * area.size.height as int;
    if n < cells { n } else { cells }
}

/// The panel pixels for the first `n` raster positions of `area`, in raster
/// order.
pub open spec fn fill_seq(width: u32, area: Rectangle, colors: Seq<LogicalColor>, n: int) -> Seq<NativePixel>
    decreases n,
{
    if n <= 0 {
        Seq::empty()
    } else {
        let rest = fill_seq(width, area, colors, n - 1);
        match fill_pixel(width, area, n - 1, colors[n - 1]) {
            Some(q) => rest.push(q),
            None => rest,
        }
    }
}

/// Fills `area` from a sequence of colors given in raster order. Each pixel
/// is mirrored on its own, so the colors of a row land right to left on the
/// panel and the area lands on its own mirror image.
pub fn flip_fill_contiguous(width: u32, area: Rectangle, colors: &Vec<LogicalColor>) -> (r: Vec<NativePixel>)
    ensures
        r@ == fill_seq(width, area, colors@, fill_count(area, colors@.len() as int)),
{
    assert(area.size.width as int * area.size.height as int <= u64::MAX) by (nonlinear_arith)
        requires
            area.size.width <= u32::MAX,
            area.size.height <= u32::MAX,
    ;
    let cells: u64 = area.size.width as u64 * area.size.height as u64;
    let mut out: Vec<NativePixel> = Vec::new();
    let mut i: usize = 0;
    while i < colors.len() && (i as u64) < cells
        invariant
            i <= colors@.len(),
            i <= cells,
            cells == area.size.width as int * area.size.height as int,
            out@ == fill_seq(width, area, colors@, i as int),
        decreases colors@.len() - i,
    {
        let w: u64 = area.size.width as u64;
        assert(w > 0) by (nonlinear_arith)
            requires
                i < cells,
                cells == w * area.size.height,
        ;
        let k: u64 = i as u64;
        let col: u64 = k % w;
        let row: u64 = k / w;
        let h: u64 = area.size.height as u64;
        assert(row < h) by (nonlinear_arith)
            requires
                w > 0,
                row == k / w,
                k < w * h,
        ;
        let x: i64 = area.top_left.x as i64 + col as i64;
        let y: i64 = area.top_left.y as i64 + row as i64;
        let mx: i64 = width as i64 - x - 1;
        if i32::MIN as i64 <= mx && mx <= i32::MAX as i64 && i32::MIN as i64 <= y && y <= i32::MAX as i64 {
            out.push(NativePixel { point: Point { x: mx as i32, y: y as i32 }, color: to_native(colors[i]) });
        }
        assert(raster_point(area, i as int) == (x as int, y as int));
        i = i + 1;
    }
    assert(i as int == fill_count(area, colors@.len() as int));
    out
}

/// The part of `area` that a fill paints on the panel, mirrored as a whole,
/// if any of it lies on a surface `width` pixels wide.
///
/// The columns of `area` are first cut to `[0, width)`, where the surface
/// is; the cut span `[lo, hi)` then lands on `[width - hi, width - lo)`.
pub open spec fn solid_area(width: u32, area: Rectangle) -> Option<Rectangle> {
    let lo = if area.top_left.x < 0 { 0 } else { area.top_left.x as int };
    let end = area.top_left.x + area.size.width as int;
    let hi = if end > width { width as int } else { end };
    if lo < hi && fits_i32(width - hi) {
        Some(Rectangle {
            top_left: Point { x: (width - hi) as i32, y: area.top_left.y },
            size: crate::geometry::Size { width: (hi - lo) as u32, height: area.size.height },
        })
    } else {
        None
    }
}

/// Fills `area` with one color: the panel gets the mirrored area, cut to the
/// surface's columns, and the color in its channel order.
pub fn flip_fill_solid(width: u32, area: Rectangle, color: LogicalColor) -> (r: Option<(Rectangle, NativeColor)>)
    ensures
        r == (match solid_area(width, area) {
            Some(a) => Some((a, native_of(color))),
            None => None::<(Rectangle, NativeColor)>,
        }),
{
    let lo: i64 = if area.top_left.x < 0 { 0 } else { area.top_left.x as i64 };
    let end: i64 = area.top_left.x as i64 + area.size.width as i64;
    let hi: i64 = if end > width as i64 { width as i64 } else { end };
    if lo < hi && width as i64 - hi <= i32::MAX as i64 {
        let placed = Rectangle {
            top_left: Point { x: (width as i64 - hi) as i32, y: area.top_left.y },
            size: crate::geometry::Size { width: (hi - lo) as u32, height: area.size.height },
        };
        Some((placed, to_native(color)))
    } else {
        None
    }
}

} // verus!
