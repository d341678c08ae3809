use vstd::prelude::*;

verus! {

/// A screen rectangle `(x, y, width, height)` in pixels.
pub type Rect = (i32, i32, i32, i32);

/// One display of the desktop, as far as the focus logic reads it: its
/// origin and size in desktop coordinates and its platform name.
#[derive(Clone, Debug)]
pub struct DisplayInfo {
    pub x: i32,
    pub y: i32,
    pub width: i32,
    pub height: i32,
    pub name: String,
}

/// True when both sides of the rectangle are positive.
pub open spec fn has_area(r: Rect) -> bool {
    r.2 > 0 && r.3 > 0
}

pub open spec fn right_of(r: Rect) -> int {
    r.0 + r.2
}

pub open spec fn bottom_of(r: Rect) -> int {
    r.1 + r.3
}

pub open spec fn max_int(a: int, b: int) -> int {
    if a >= b { a } else { b }
}

pub open spec fn min_int(a: int, b: int) -> int {
    if a <= b { a } else { b }
}

/// `v` limited to `[lo, hi]`; only meaningful when `lo <= hi`.
pub open spec fn clamp_int(v: int, lo: int, hi: int) -> int {
    if v < lo { lo } else if v > hi { hi } else { v }
}

pub open spec fn abs_int(v: int) -> int {
    if v < 0 { -v } else { v }
}

/// The area of a rectangle, with negative sides counted as zero.
pub open spec fn area(r: Rect) -> int {
    max_int(r.2 as int, 0) * max_int(r.3 as int, 0)
}

/// The overlap of two rectangles, when it has a positive area.
pub open spec fn intersection(a: Rect, b: Rect) -> Option<Rect> {
    let x1 = max_int(a.0 as int, b.0 as int);
    let y1 = max_int(a.1 as int, b.1 as int);
    let x2 = min_int(right_of(a), right_of(b));
    let y2 = min_int(bottom_of(a), bottom_of(b));
    if x2 - x1 > 0 && y2 - y1 > 0 {
        Some((x1 as i32, y1 as i32, (x2 - x1) as i32, (y2 - y1) as i32))
    } else {
        None
    }
}

/// Point containment with the right and bottom edges included.
pub open spec fn contains_point(r: Rect, x: int, y: int) -> bool {
    has_area(r) && r.0 <= x <= right_of(r) && r.1 <= y <= bottom_of(r)
}

/// Point containment in the rectangle grown by `margin` on every side.
pub open spec fn near_point(r: Rect, x: int, y: int, margin: int) -> bool {
    has_area(r) && r.0 - margin <= x <= right_of(r) + margin && r.1 - margin <= y
        <= bottom_of(r) + margin
}

pub open spec fn center_fits(r: Rect) -> bool {
    has_area(r) ==> (r.0 + r.2 / 2 <= i32::MAX && r.1 + r.3 / 2 <= i32::MAX)
}

/// The center of a rectangle with area (halves rounded toward zero).
pub open spec fn center(r: Rect) -> Option<(i32, i32)> {
    if has_area(r) {
        Some(((r.0 + r.2 / 2) as i32, (r.1 + r.3 / 2) as i32))
    } else {
        None
    }
}

/// The bound on coordinates and sizes that the focus logic takes: 2^28.
/// Windows keeps window and screen coordinates within the range of GDI's
/// coordinate space, -2^27 to 2^27 - 1 (and the virtual desktop far inside
/// it), so every rectangle the system reports meets it. Within it, the
/// sums and differences of a few components that the logic forms in `i32`
/// (centres, right and bottom edges, display offsets) cannot overflow.
pub const COORD_LIMIT: i32 = 0x1000_0000;

pub open spec fn coord_ok(v: int) -> bool {
    -COORD_LIMIT <= v <= COORD_LIMIT
}

/// All four components of the rectangle are within `COORD_LIMIT`, so that
/// sums and differences of a few of them fit in `i32`.
pub open spec fn rect_ok(r: Rect) -> bool {
    coord_ok(r.0 as int) && coord_ok(r.1 as int) && coord_ok(r.2 as int) && coord_ok(r.3 as int)
}

/// The looser bound that rectangles derived from in-bound ones keep.
pub open spec fn wide_ok(r: Rect) -> bool {
    let l = 2 * COORD_LIMIT;
    let m = 4 * COORD_LIMIT;
    -l <= r.0 <= l && -l <= r.1 <= l && -m <= r.2 <= m && -m <= r.3 <= m
}

/// Rust's `/ 2` on integers, which rounds toward zero.
pub open spec fn half(v: int) -> int {
    if v >= 0 {
        v / 2
    } else {
        -((-v) / 2)
    }
}

pub proof fn lemma_ok_is_wide(r: Rect)
    requires
        rect_ok(r),
    ensures
        wide_ok(r),
{
}

pub proof fn lemma_wide_fits(r: Rect, d: DisplayInfo)
    requires
        wide_ok(r),
        display_ok(d),
    ensures
        center_fits(r),
        to_display_fits(r, d),
{
}

pub open spec fn display_ok(d: DisplayInfo) -> bool {
    coord_ok(d.x as int) && coord_ok(d.y as int) && coord_ok(d.width as int) && coord_ok(
        d.height as int,
    )
}

pub fn rect_is_ok(r: (i32, i32, i32, i32)) -> (b: bool)
    ensures
        b == rect_ok(r),
{
    -COORD_LIMIT <= r.0 && r.0 <= COORD_LIMIT && -COORD_LIMIT <= r.1 && r.1 <= COORD_LIMIT
        && -COORD_LIMIT <= r.2 && r.2 <= COORD_LIMIT && -COORD_LIMIT <= r.3 && r.3 <= COORD_LIMIT
}

pub open spec fn fits_i32(v: int) -> bool {
    i32::MIN <= v <= i32::MAX
}

pub fn max_i32(a: i32, b: i32) -> (r: i32)
    ensures
        r == max_int(a as int, b as int),
{
    if a >= b { a } else { b }
}

pub fn min_i32(a: i32, b: i32) -> (r: i32)
    ensures
        r == min_int(a as int, b as int),
{
    if a <= b { a } else { b }
}

pub fn max_i64(a: i64, b: i64) -> (r: i64)
    ensures
        r == max_int(a as int, b as int),
{
    if a >= b { a } else { b }
}

pub fn min_i64(a: i64, b: i64) -> (r: i64)
    ensures
        r == min_int(a as int, b as int),
{
    if a <= b { a } else { b }
}

/// `v.clamp(lo, hi)`; `lo <= hi` is what std's `clamp` asserts.
pub fn clamp_i32(v: i32, lo: i32, hi: i32) -> (r: i32)
    requires
        lo <= hi,
    ensures
        r == clamp_int(v as int, lo as int, hi as int),
        lo <= r <= hi,
{
    if v < lo { lo } else if v > hi { hi } else { v }
}

/// Component-wise equality of two rectangles.
pub fn rect_eq(a: (i32, i32, i32, i32), b: (i32, i32, i32, i32)) -> (r: bool)
    ensures
        r == (a == b),
{
    a.0 == b.0 && a.1 == b.1 && a.2 == b.2 && a.3 == b.3
}

/// Whether the rectangle has a positive width and height.
pub fn rect_has_area(rect: (i32, i32, i32, i32)) -> (b: bool)
    ensures
        b == has_area(rect),
{
    rect.2 > 0 && rect.3 > 0
}

/// The area of the rectangle, negative sides counting as zero.
pub fn rect_area(rect: (i32, i32, i32, i32)) -> (a: i64)
    ensures
        a == area(rect),
        a >= 0,
{
    let w = max_i32(rect.2, 0) as i64;
    let h = max_i32(rect.3, 0) as i64;
    assert(0 <= w * h <= 0x7fff_ffff * 0x7fff_ffff) by (nonlinear_arith)
        requires
            0 <= w <= 0x7fff_ffff,
            0 <= h <= 0x7fff_ffff,
    ;
    w * h
}

/// The overlapping part of two rectangles, or `None` when they do not
/// overlap with a positive area.
pub fn rect_intersection(
    left: (i32, i32, i32, i32),
    right: (i32, i32, i32, i32),
) -> (r: Option<(i32, i32, i32, i32)>)
    ensures
        r == intersection(left, right),
{
    let x1 = max_i64(left.0 as i64, right.0 as i64);
    let y1 = max_i64(left.1 as i64, right.1 as i64);
    let x2 = min_i64(left.0 as i64 + left.2 as i64, right.0 as i64 + right.2 as i64);
    let y2 = min_i64(left.1 as i64 + left.3 as i64, right.1 as i64 + right.3 as i64);
    if x2 - x1 > 0 && y2 - y1 > 0 {
        Some((x1 as i32, y1 as i32, (x2 - x1) as i32, (y2 - y1) as i32))
    } else {
        None
    }
}

/// Whether two rectangles overlap (strict edges).
pub fn rects_intersect(a: (i32, i32, i32, i32), b: (i32, i32, i32, i32)) -> (r: bool)
    ensures
        r == (a.0 < right_of(b) && right_of(a) > b.0 && a.1 < bottom_of(b) && bottom_of(a)
            > b.1),
{
    let a_right = a.0 as i64 + a.2 as i64;
    let a_bottom = a.1 as i64 + a.3 as i64;
    let b_right = b.0 as i64 + b.2 as i64;
    let b_bottom = b.1 as i64 + b.3 as i64;
    (a.0 as i64) < b_right && a_right > b.0 as i64 && (a.1 as i64) < b_bottom && a_bottom
        > b.1 as i64
}

/// Whether `inner` lies inside `outer` grown by the margins; both need area.
pub fn rect_contains_rect_with_margin(
    outer: (i32, i32, i32, i32),
    inner: (i32, i32, i32, i32),
    margin_x: i32,
    margin_y: i32,
) -> (r: bool)
    ensures
        r == (has_area(outer) && has_area(inner) && inner.0 >= outer.0 - margin_x && inner.1
            >= outer.1 - margin_y && right_of(inner) <= right_of(outer) + margin_x
            && bottom_of(inner) <= bottom_of(outer) + margin_y),
{
    rect_has_area(outer) && rect_has_area(inner) && inner.0 as i64 >= outer.0 as i64
        - margin_x as i64 && inner.1 as i64 >= outer.1 as i64 - margin_y as i64 && inner.0 as i64
        + inner.2 as i64 <= outer.0 as i64 + outer.2 as i64 + margin_x as i64 && inner.1 as i64
        + inner.3 as i64 <= outer.1 as i64 + outer.3 as i64 + margin_y as i64
}

/// Whether the point lies in the rectangle, edges included.
pub fn point_in_rect(rect: (i32, i32, i32, i32), x: i32, y: i32) -> (r: bool)
    ensures
        r == contains_point(rect, x as int, y as int),
{
    rect_has_area(rect) && x as i64 >= rect.0 as i64 && x as i64 <= rect.0 as i64
        + rect.2 as i64 && y as i64 >= rect.1 as i64 && y as i64 <= rect.1 as i64 + rect.3 as i64
}

/// Whether the point lies in the rectangle grown by `margin` on each side.
pub fn point_near_rect(rect: (i32, i32, i32, i32), x: i32, y: i32, margin: i32) -> (r: bool)
    ensures
        r == near_point(rect, x as int, y as int, margin as int),
{
    if !rect_has_area(rect) {
        return false;
    }
    let left = rect.0 as i64 - margin as i64;
    let top = rect.1 as i64 - margin as i64;
    let right = rect.0 as i64 + rect.2 as i64 + margin as i64;
    let bottom = rect.1 as i64 + rect.3 as i64 + margin as i64;
    x as i64 >= left && x as i64 <= right && y as i64 >= top && y as i64 <= bottom
}

/// The center of a rectangle that has an area.
pub fn rect_center(rect: (i32, i32, i32, i32)) -> (r: Option<(i32, i32)>)
    requires
        center_fits(rect),
    ensures
        r == center(rect),
{
    if !rect_has_area(rect) {
        return None;
    }
    Some((rect.0 + rect.2 / 2, rect.1 + rect.3 / 2))
}

/// A rectangle shifted so that its origin is relative to the display's
/// origin; rectangles without area are returned as they are.
pub open spec fn to_display(r: Rect, d: DisplayInfo) -> Rect {
    if has_area(r) {
        ((r.0 - d.x) as i32, (r.1 - d.y) as i32, r.2, r.3)
    } else {
        r
    }
}

pub open spec fn to_display_fits(r: Rect, d: DisplayInfo) -> bool {
    has_area(r) ==> fits_i32(r.0 - d.x) && fits_i32(r.1 - d.y)
}

pub fn normalize_rect_to_display(
    rect: (i32, i32, i32, i32),
    display: &DisplayInfo,
) -> (r: (i32, i32, i32, i32))
    requires
        to_display_fits(rect, *display),
    ensures
        r == to_display(rect, *display),
{
    if !rect_has_area(rect) {
        return rect;
    }
    (rect.0 - display.x, rect.1 - display.y, rect.2, rect.3)
}

/// The overlap of two rectangles lies inside each of them, and does not
/// depend on the order of the arguments.
pub proof fn lemma_intersection_inside(a: Rect, b: Rect)
    ensures
        intersection(a, b) == intersection(b, a),
        intersection(a, b) matches Some(r) ==> has_area(r) && r.0 >= a.0 && r.0 >= b.0 && r.1
            >= a.1 && r.1 >= b.1 && right_of(r) <= right_of(a) && right_of(r) <= right_of(b)
            && bottom_of(r) <= bottom_of(a) && bottom_of(r) <= bottom_of(b),
{
}

} // verus!
