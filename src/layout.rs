//! Arranging widgets against a surface: the box a text block covers, and
//! centering that box on the surface's box.

use vstd::prelude::*;
use crate::geometry::{Point, Rectangle, Size, fits_i32};
use crate::widget::{StyledRect, TextBlock, TextBlockView, TextRun, TextRunView};
use embedded_graphics::geometry::{Point as EgPoint, Size as EgSize};
use embedded_graphics::primitives::Rectangle as EgRect;
use embedded_layout::align::{horizontal, vertical, Align as _};
use embedded_layout::layout::linear::LinearLayout;
use embedded_layout::view_group::Views;
use embedded_layout::utils::rect_helper::RectExt as _;

verus! {

pub open spec fn min_int(a: int, b: int) -> int {
    if a <= b { a } else { b }
}

pub open spec fn max_int(a: int, b: int) -> int {
    if a >= b { a } else { b }
}

/// Whether every coordinate that enveloping `a` and `b` computes is an
/// `i32` and the span fits a `u32`.
pub open spec fn envelope_ok(a: Rectangle, b: Rectangle) -> bool {
    &&& fits_i32(a.right()) && fits_i32(b.right())
    &&& fits_i32(a.bottom()) && fits_i32(b.bottom())
    &&& fits_i32(max_int(a.right(), b.right()) - min_int(a.top_left.x as int, b.top_left.x as int))
    &&& fits_i32(max_int(a.bottom(), b.bottom()) - min_int(a.top_left.y as int, b.top_left.y as int))
}

/// The smallest rectangle that holds both `a` and `b`, an empty extent
/// counting as one pixel.
pub open spec fn envelope(a: Rectangle, b: Rectangle) -> Rectangle {
    let x0 = min_int(a.top_left.x as int, b.top_left.x as int);
    let y0 = min_int(a.top_left.y as int, b.top_left.y as int);
    let x1 = max_int(a.right(), b.right());
    let y1 = max_int(a.bottom(), b.bottom());
    Rectangle {
        top_left: Point { x: x0 as i32, y: y0 as i32 },
        size: Size { width: (x1 - x0 + 1) as u32, height: (y1 - y0 + 1) as u32 },
    }
}

/// Relies on embedded-layout `RectExt::enveloping`: the corners are the
/// least top-left and the greatest bottom-right anchor of the two.
#[verifier::external_body]
fn enveloping(a: Rectangle, b: Rectangle) -> (r: Rectangle)
    requires
        envelope_ok(a, b),
    ensures
        r == envelope(a, b),
{
    let ea = EgRect::new(EgPoint::new(a.top_left.x, a.top_left.y), EgSize::new(a.size.width, a.size.height));
    let eb = EgRect::new(EgPoint::new(b.top_left.x, b.top_left.y), EgSize::new(b.size.width, b.size.height));
    let e = ea.enveloping(&eb);
    Rectangle {
        top_left: Point { x: e.top_left.x, y: e.top_left.y },
        size: Size { width: e.size.width, height: e.size.height },
    }
}

/// The shift that brings the center of `what` onto the center of
/// `reference`.
pub open spec fn center_shift(what: Rectangle, reference: Rectangle) -> (int, int) {
    (reference.center_x() - what.center_x(), reference.center_y() - what.center_y())
}

/// Whether centering `what` on `reference` computes only `i32` values.
pub open spec fn align_ok(what: Rectangle, reference: Rectangle) -> bool {
    let (dx, dy) = center_shift(what, reference);
    &&& fits_i32(what.center_x()) && fits_i32(what.center_y())
    &&& fits_i32(reference.center_x()) && fits_i32(reference.center_y())
    &&& fits_i32(dx) && fits_i32(dy)
    &&& fits_i32(what.top_left.x + dx) && fits_i32(what.top_left.y + dy)
}

/// Relies on embedded-layout `Align::align_to` with `horizontal::Center`
/// and `vertical::Center`: the rectangle moves by the difference of the two
/// center anchors, and keeps its size.
#[verifier::external_body]
fn align_center(what: Rectangle, reference: Rectangle) -> (r: Rectangle)
    requires
        align_ok(what, reference),
    ensures
        r == what.moved(center_shift(what, reference).0, center_shift(what, reference).1),
{
    let w = EgRect::new(EgPoint::new(what.top_left.x, what.top_left.y), EgSize::new(what.size.width, what.size.height));
    let rf = EgRect::new(EgPoint::new(reference.top_left.x, reference.top_left.y), EgSize::new(reference.size.width, reference.size.height));
    let e = w.align_to(&rf, horizontal::Center, vertical::Center);
    Rectangle {
        top_left: Point { x: e.top_left.x, y: e.top_left.y },
        size: Size { width: e.size.width, height: e.size.height },
    }
}

/// Whether `r` moved by `(dx, dy)` keeps its corners within `i32`.
pub open spec fn movable(r: Rectangle, dx: int, dy: int) -> bool {
    &&& fits_i32(r.top_left.x + dx) && fits_i32(r.top_left.y + dy)
    &&& fits_i32(r.right() + dx) && fits_i32(r.bottom() + dy)
}

impl TextBlockView {
    /// The box the block covers: its label's box and its background
    /// together.
    pub open spec fn spec_bounds(self) -> Option<Rectangle> {
        if envelope_ok(self.label_box, self.background.area) {
            Some(envelope(self.label_box, self.background.area))
        } else {
            None
        }
    }


    /// The block moved by `(dx, dy)`, where every corner it holds stays
    /// within `i32`.
    pub open spec fn shifted(self, dx: int, dy: int) -> Option<TextBlockView> {
        if movable(self.label_box, dx, dy) && movable(self.background.area, dx, dy)
            && fits_i32(self.label.position.x + dx) && fits_i32(self.label.position.y + dy) {
            Some(TextBlockView {
                label: TextRunView {
                    text: self.label.text,
                    position: Point {
                        x: (self.label.position.x + dx) as i32,
                        y: (self.label.position.y + dy) as i32,
                    },
                    color: self.label.color,
                    centered: self.label.centered,
                },
                label_box: self.label_box.moved(dx, dy),
                background: StyledRect {
                    area: self.background.area.moved(dx, dy),
                    style: self.background.style,
                    stroke_width: self.background.stroke_width,
                },
            })
        } else {
            None
        }
    }
}

impl TextBlock {
    /// The box the block covers, or `None` where it does not fit `i32`
    /// coordinates.
    pub fn bounds(&self) -> (r: Option<Rectangle>)
        ensures
            r == self@.spec_bounds(),
    {
        let a = self.label_box;
        let b = self.background.area;
        let ar: i64 = a.top_left.x as i64 + last_offset_of(a.size.width);
        let br: i64 = b.top_left.x as i64 + last_offset_of(b.size.width);
        let ab: i64 = a.top_left.y as i64 + last_offset_of(a.size.height);
        let bb: i64 = b.top_left.y as i64 + last_offset_of(b.size.height);
        let x0: i64 = if a.top_left.x <= b.top_left.x { a.top_left.x as i64 } else { b.top_left.x as i64 };
        let y0: i64 = if a.top_left.y <= b.top_left.y { a.top_left.y as i64 } else { b.top_left.y as i64 };
        let x1: i64 = if ar >= br { ar } else { br };
        let y1: i64 = if ab >= bb { ab } else { bb };
        if fits(ar) && fits(br) && fits(ab) && fits(bb) && fits(x1 - x0) && fits(y1 - y0) {
            Some(enveloping(a, b))
        } else {
            None
        }
    }

    /// Moves the block by `(dx, dy)`, or gives `None` where a corner would
    /// leave `i32`.
    pub fn moved_by(self, dx: i32, dy: i32) -> (r: Option<TextBlock>)
        ensures
            match r {
                Some(m) => self@.shifted(dx as int, dy as int) == Some(m@),
                None => self@.shifted(dx as int, dy as int) is None,
            },
    {
        let lb = self.label_box;
        let bg = self.background.area;
        let px: i64 = self.label.position.x as i64 + dx as i64;
        let py: i64 = self.label.position.y as i64 + dy as i64;
        if can_move(lb, dx, dy) && can_move(bg, dx, dy) && fits(px) && fits(py) {
            let label = TextRun {
                text: self.label.text,
                position: Point { x: px as i32, y: py as i32 },
                color: self.label.color,
                centered: self.label.centered,
            };
            Some(TextBlock {
                label,
                label_box: shift(lb, dx, dy),
                background: StyledRect {
                    area: shift(bg, dx, dy),
                    style: self.background.style,
                    stroke_width: self.background.stroke_width,
                },
            })
        } else {
            None
        }
    }
}

fn fits(v: i64) -> (r: bool)
    ensures
        r == fits_i32(v as int),
{
    i32::MIN as i64 <= v && v <= i32::MAX as i64
}

fn last_offset_of(extent: u32) -> (r: i64)
    ensures
        r == crate::geometry::last_offset(extent),
{
    if extent == 0 {
        0
    } else if extent > i32::MAX as u32 {
        i32::MAX as i64 - 1
    } else {
        extent as i64 - 1
    }
}

fn can_move(r: Rectangle, dx: i32, dy: i32) -> (b: bool)
    ensures
        b == movable(r, dx as int, dy as int),
{
    fits(r.top_left.x as i64 + dx as i64) && fits(r.top_left.y as i64 + dy as i64)
        && fits(r.top_left.x as i64 + last_offset_of(r.size.width) + dx as i64)
        && fits(r.top_left.y as i64 + last_offset_of(r.size.height) + dy as i64)
}

fn shift(r: Rectangle, dx: i32, dy: i32) -> (m: Rectangle)
    requires
        movable(r, dx as int, dy as int),
    ensures
        m == r.moved(dx as int, dy as int),
{
    Rectangle { top_left: Point { x: r.top_left.x + dx, y: r.top_left.y + dy }, size: r.size }
}

/// The block moved so that the center of the box it covers lies on the
/// center of `area`, where all of it stays within `i32`.
pub open spec fn centered_on(block: TextBlockView, area: Rectangle) -> Option<TextBlockView> {
    match block.spec_bounds() {
        Some(b) => if align_ok(b, area) {
            block.shifted(center_shift(b, area).0, center_shift(b, area).1)
        } else {
            None
        },
        None => None,
    }
}

/// Centers `block` on `area`, both ways. The box the moved block covers has
/// its center on the center of `area`.
pub fn center_on(block: TextBlock, area: Rectangle) -> (r: Option<TextBlock>)
    ensures
        match r {
            Some(m) => centered_on(block@, area) == Some(m@),
            None => centered_on(block@, area) is None,
        },
        r is Some ==> r->0@.spec_bounds() is Some,
        r is Some ==> r->0@.spec_bounds()->0.center_x() == area.center_x(),
        r is Some ==> r->0@.spec_bounds()->0.center_y() == area.center_y(),
{
    let b = match block.bounds() {
        Some(b) => b,
        None => return None,
    };
    let cx: i64 = b.top_left.x as i64 + last_offset_of(b.size.width) / 2;
    let cy: i64 = b.top_left.y as i64 + last_offset_of(b.size.height) / 2;
    let rx: i64 = area.top_left.x as i64 + last_offset_of(area.size.width) / 2;
    let ry: i64 = area.top_left.y as i64 + last_offset_of(area.size.height) / 2;
    let dx: i64 = rx - cx;
    let dy: i64 = ry - cy;
    if !(fits(cx) && fits(cy) && fits(rx) && fits(ry) && fits(dx) && fits(dy)
        && fits(b.top_left.x as i64 + dx) && fits(b.top_left.y as i64 + dy)) {
        return None;
    }
    let aligned = align_center(b, area);
    let r = block.moved_by((aligned.top_left.x as i64 - b.top_left.x as i64) as i32,
        (aligned.top_left.y as i64 - b.top_left.y as i64) as i32);
    proof {
        if r is Some {
            let m = r->0@;
            assert(envelope_ok(m.label_box, m.background.area));
            assert(m.spec_bounds()->0 == b.moved(dx as int, dy as int));
        }
    }
    r
}

/// The largest extent a rectangle in a chain may have.
pub const MAX_CHAIN_EXTENT: u32 = 65_536;

/// The most rectangles a chain holds.
pub const MAX_CHAIN_LEN: usize = 1024;

/// The largest distance from the origin of a chained rectangle's corner.
pub const MAX_CHAIN_COORD: i32 = 1_000_000_000;

/// Whether `rs` can be stacked: one to `MAX_CHAIN_LEN` rectangles, each at
/// least one pixel and at most `MAX_CHAIN_EXTENT` pixels each way, with
/// corners no further than `MAX_CHAIN_COORD` from the origin.
pub open spec fn stack_ok(rs: Seq<Rectangle>) -> bool {
    &&& 1 <= rs.len() <= MAX_CHAIN_LEN
    &&& forall|i: int| 0 <= i < rs.len() ==> chainable(#[trigger] rs[i])
}

/// Whether `r` may stand in a chain.
pub open spec fn chainable(r: Rectangle) -> bool {
    &&& 1 <= r.size.width <= MAX_CHAIN_EXTENT
    &&& 1 <= r.size.height <= MAX_CHAIN_EXTENT
    &&& -MAX_CHAIN_COORD <= r.top_left.x <= MAX_CHAIN_COORD
    &&& -MAX_CHAIN_COORD <= r.top_left.y <= MAX_CHAIN_COORD
}

/// The largest width among the first `n` rectangles of `rs`.
pub open spec fn widest(rs: Seq<Rectangle>, n: int) -> int
    decreases n,
{
    if n <= 0 {
        0
    } else {
        max_int(widest(rs, n - 1), rs[n - 1].size.width as int)
    }
}

/// Where the `i`-th rectangle of a vertical chain lands: the chain starts
/// at the origin's row, the first rectangle centered within the chain's
/// widest width; each next one starts on the row below the one before and
/// shares its center column.
pub open spec fn stacked(rs: Seq<Rectangle>, i: int) -> Rectangle
    decreases i,
{
    if i <= 0 {
        Rectangle {
            top_left: Point {
                x: ((widest(rs, rs.len() as int) - 1) / 2 - (rs[0].size.width - 1) / 2) as i32,
                y: 0,
            },
            size: rs[0].size,
        }
    } else {
        let p = stacked(rs, i - 1);
        Rectangle {
            top_left: Point {
                x: (p.center_x() - (rs[i].size.width - 1) / 2) as i32,
                y: (p.top_left.y + p.size.height) as i32,
            },
            size: rs[i].size,
        }
    }
}

/// Relies on embedded-layout `LinearLayout::vertical` with
/// `horizontal::Center` as its alignment and `arrange`, over `Views` of
/// rectangles: the first moves to the layout's origin and is centered in
/// the chain's widest width, each next one is placed on the row after the
/// one before and centered on it. Within `stack_ok` nothing it computes
/// overflows.
#[verifier::external_body]
fn stack_vertical(rs: &Vec<Rectangle>) -> (r: Vec<Rectangle>)
    requires
        stack_ok(rs@),
    ensures
        r@.len() == rs@.len(),
        forall|i: int| 0 <= i < r@.len() ==> r@[i] == stacked(rs@, i),
{
    let mut v: Vec<EgRect> = Vec::new();
    for r in rs.iter() {
        v.push(EgRect::new(EgPoint::new(r.top_left.x, r.top_left.y), EgSize::new(r.size.width, r.size.height)));
    }
    let _ = LinearLayout::vertical(Views::new(&mut v)).with_alignment(horizontal::Center).arrange();
    let mut out: Vec<Rectangle> = Vec::new();
    for e in v.iter() {
        out.push(Rectangle { top_left: Point { x: e.top_left.x, y: e.top_left.y }, size: Size { width: e.size.width, height: e.size.height } });
    }
    out
}

/// The shift that takes the box `r` onto `p`.
pub open spec fn shift_onto(r: Rectangle, p: Rectangle) -> (int, int) {
    (p.top_left.x - r.top_left.x, p.top_left.y - r.top_left.y)
}

/// The boxes that the blocks `vs` cover, where each covers one.
pub open spec fn chain_bounds(vs: Seq<TextBlockView>) -> Seq<Rectangle> {
    Seq::new(vs.len(), |i: int| vs[i].spec_bounds()->0)
}

/// Whether block `i` of `vs` can move onto its place in the chain.
pub open spec fn chain_step_ok(vs: Seq<TextBlockView>, i: int) -> bool {
    let d = shift_onto(chain_bounds(vs)[i], stacked(chain_bounds(vs), i));
    fits_i32(d.0) && fits_i32(d.1) && vs[i].shifted(d.0, d.1) is Some
}

/// The blocks `vs` stacked into a vertical chain (see [`stacked`]), each
/// moved so that the box it covers lands on its place, where every block
/// covers a box, the boxes can be stacked and every move stays in `i32`.
pub open spec fn chain_of(vs: Seq<TextBlockView>) -> Option<Seq<TextBlockView>> {
    let rs = chain_bounds(vs);
    if (forall|i: int| 0 <= i < vs.len() ==> (#[trigger] vs[i]).spec_bounds() is Some)
        && stack_ok(rs)
        && (forall|i: int| 0 <= i < vs.len() ==> #[trigger] chain_step_ok(vs, i)) {
        Some(Seq::new(vs.len(), |i: int| vs[i].shifted(
            shift_onto(rs[i], stacked(rs, i)).0,
            shift_onto(rs[i], stacked(rs, i)).1,
        )->0))
    } else {
        None
    }
}

fn chainable_rect(r: Rectangle) -> (b: bool)
    ensures
        b == chainable(r),
{
    1 <= r.size.width && r.size.width <= MAX_CHAIN_EXTENT && 1 <= r.size.height
        && r.size.height <= MAX_CHAIN_EXTENT && -MAX_CHAIN_COORD <= r.top_left.x
        && r.top_left.x <= MAX_CHAIN_COORD && -MAX_CHAIN_COORD <= r.top_left.y
        && r.top_left.y <= MAX_CHAIN_COORD
}

/// What each block of `bs` holds.
pub open spec fn views(bs: Seq<TextBlock>) -> Seq<TextBlockView> {
    bs.map_values(|b: TextBlock| b@)
}

/// Stacks `blocks` top to bottom into one group: the first starts on row 0
/// centered within the widest block, each next one starts on the row after
/// the one before and shares its center column. Gives `None` exactly where
/// [`chain_of`] does: no block, too many, a block too large or too far out,
/// or a move that would leave `i32`.
pub fn arrange_vertical(blocks: Vec<TextBlock>) -> (r: Option<Vec<TextBlock>>)
    ensures
        match r {
            Some(out) => chain_of(views(blocks@)) == Some(
                views(out@),
            ),
            None => chain_of(views(blocks@)) is None,
        },
{
    let ghost vs = views(blocks@);
    let n = blocks.len();
    let mut rs: Vec<Rectangle> = Vec::new();
    let mut i: usize = 0;
    while i < n
        invariant
            n == blocks@.len(),
            vs == views(blocks@),
            i <= n,
            rs@.len() == i,
            forall|j: int| 0 <= j < i ==> vs[j].spec_bounds() == Some(#[trigger] rs@[j]),
        decreases n - i,
    {
        match blocks[i].bounds() {
            Some(b) => rs.push(b),
            None => {
                assert(!(vs[i as int].spec_bounds() is Some));
                return None;
            },
        }
        i = i + 1;
    }
    assert(rs@ =~= chain_bounds(vs));
    assert forall|t: int| 0 <= t < n implies (#[trigger] vs[t]).spec_bounds() is Some by {
        assert(vs[t].spec_bounds() == Some(rs@[t]));
    }
    if n == 0 || n > MAX_CHAIN_LEN {
        return None;
    }
    let mut k: usize = 0;
    while k < n
        invariant
            rs@.len() == n,
            n == vs.len(),
            vs == views(blocks@),
            rs@ == chain_bounds(vs),
            1 <= n <= MAX_CHAIN_LEN,
            k <= n,
            forall|j: int| 0 <= j < k ==> chainable(#[trigger] rs@[j]),
        decreases n - k,
    {
        if !chainable_rect(rs[k]) {
            assert(!chainable(rs@[k as int]));
            assert(!stack_ok(chain_bounds(vs)));
            return None;
        }
        k = k + 1;
    }
    assert(stack_ok(rs@));
    let placed = stack_vertical(&rs);
    let mut rest = blocks;
    let mut out: Vec<TextBlock> = Vec::new();
    let mut j: usize = 0;
    while j < n
        invariant
            n == vs.len(),
            vs == views(blocks@),
            rs@ == chain_bounds(vs),
            stack_ok(rs@),
            placed@.len() == n,
            forall|t: int| 0 <= t < n ==> placed@[t] == stacked(rs@, t),
            j <= n,
            forall|t: int| 0 <= t < n ==> (#[trigger] vs[t]).spec_bounds() is Some,
            rest@.len() == n - j,
            views(rest@) == vs.subrange(j as int, n as int),
            out@.len() == j,
            forall|t: int| 0 <= t < j ==> chain_step_ok(vs, t),
            forall|t: int| 0 <= t < j ==> vs[t].shifted(
                shift_onto(rs@[t], stacked(rs@, t)).0,
                shift_onto(rs@[t], stacked(rs@, t)).1,
            ) == Some((#[trigger] out@[t])@),
        decreases n - j,
    {
        let ghost before = rest@;
        assert(views(before)[0] == vs[j as int]);
        let b = rest.remove(0);
        assert(rest@ =~= before.subrange(1, before.len() as int));
        assert forall|t: int| 0 <= t < rest@.len() implies (#[trigger] rest@[t])@ == vs[j as int + 1 + t] by {
            assert(views(before)[t + 1] == vs.subrange(j as int, n as int)[t + 1]);
        }
        assert(views(rest@) =~= vs.subrange(j as int + 1, n as int));
        assert(b == before[0]);
        let dx: i64 = placed[j].top_left.x as i64 - rs[j].top_left.x as i64;
        let dy: i64 = placed[j].top_left.y as i64 - rs[j].top_left.y as i64;
        if !(i32::MIN as i64 <= dx && dx <= i32::MAX as i64 && i32::MIN as i64 <= dy && dy <= i32::MAX as i64) {
            assert(!chain_step_ok(vs, j as int));
            assert(!(forall|t: int| 0 <= t < vs.len() ==> #[trigger] chain_step_ok(vs, t)));
            return None;
        }
        match b.moved_by(dx as i32, dy as i32) {
            Some(m) => out.push(m),
            None => {
                assert(!chain_step_ok(vs, j as int));
                assert(!(forall|t: int| 0 <= t < vs.len() ==> #[trigger] chain_step_ok(vs, t)));
                return None;
            },
        }
        j = j + 1;
    }
    assert(views(out@) =~= chain_of(vs)->0);
    Some(out)
}

} // verus!
