//! The arrangement engine: where a move, a resize or a snap puts a window.
//!
//! Every function here is a pure computation on integers. A position that
//! comes out of it is meant to be applied at once; a size is only a request
//! that the window may answer later. All of them work in wide arithmetic and
//! answer `None` when the exact result has a coordinate outside `i32`.

use vstd::prelude::*;
use crate::config::SnapPosition;
use crate::geometry::{fits_i32, half, Point, Rectangle, Size};
use crate::window::Direction;

verus! {

/// Floor of both dimensions of every resize request.
pub const MIN_WINDOW_SIZE: i32 = 100;

/// `loc` displaced by `step` pixels in `direction`.
pub open spec fn moved(loc: Point, direction: Direction, step: int) -> (int, int) {
    (loc.x + direction.unit().0 * step, loc.y + direction.unit().1 * step)
}

/// `size` grown by `step` pixels along `direction`, neither dimension
/// below [`MIN_WINDOW_SIZE`].
pub open spec fn resized(size: Size, direction: Direction, step: int) -> (int, int) {
    let w = size.w + direction.unit().0 * step;
    let h = size.h + direction.unit().1 * step;
    (
        if w < MIN_WINDOW_SIZE { MIN_WINDOW_SIZE as int } else { w },
        if h < MIN_WINDOW_SIZE { MIN_WINDOW_SIZE as int } else { h },
    )
}

/// The geometry `(x, y, w, h)` of a snap to `position` on an output of
/// `out_w` by `out_h` pixels, with `gap` pixels kept free along the output's
/// edges and `inner` pixels between two windows that share the output.
/// `cur_w` and `cur_h` are the window's present size, which `Center` keeps.
/// Gaps are taken as they are: large ones give sizes of zero or less.
pub open spec fn snapped(
    position: SnapPosition,
    out_w: int,
    out_h: int,
    gap: int,
    inner: int,
    cur_w: int,
    cur_h: int,
) -> (int, int, int, int) {
    let far_x = half(out_w) + half(inner);
    let far_y = half(out_h) + half(inner);
    let half_w = half(out_w) - gap - half(inner);
    let half_h = half(out_h) - gap - half(inner);
    let full_w = out_w - 2 * gap;
    let full_h = out_h - 2 * gap;
    match position {
        SnapPosition::Left => (gap, gap, half_w, full_h),
        SnapPosition::Right => (far_x, gap, half_w, full_h),
        SnapPosition::Top => (gap, gap, full_w, half_h),
        SnapPosition::Bottom => (gap, far_y, full_w, half_h),
        SnapPosition::TopLeft => (gap, gap, half_w, half_h),
        SnapPosition::TopRight => (far_x, gap, half_w, half_h),
        SnapPosition::BottomLeft => (gap, far_y, half_w, half_h),
        SnapPosition::BottomRight => (far_x, far_y, half_w, half_h),
        SnapPosition::Maximize => (gap, gap, full_w, full_h),
        SnapPosition::Center => (half(out_w - cur_w), half(out_h - cur_h), cur_w, cur_h),
    }
}

/// However small a window is and however large a step shrinks it, the
/// size that is asked for is not below [`MIN_WINDOW_SIZE`] in either
/// dimension.
pub proof fn lemma_resize_floor(size: Size, direction: Direction, step: int)
    ensures
        resized(size, direction, step).0 >= MIN_WINDOW_SIZE,
        resized(size, direction, step).1 >= MIN_WINDOW_SIZE,
{
}

fn narrow(v: i64) -> (r: Option<i32>)
    ensures
        r is Some == fits_i32(v as int),
        r matches Some(n) ==> n == v,
{
    if v < -2147483648 || v > 2147483647 {
        None
    } else {
        Some(v as i32)
    }
}

fn unit_vector(direction: Direction) -> (u: (i64, i64))
    ensures
        u.0 == direction.unit().0,
        u.1 == direction.unit().1,
{
    match direction {
        Direction::Up => (0, -1),
        Direction::Down => (0, 1),
        Direction::Left => (-1, 0),
        Direction::Right => (1, 0),
    }
}

/// Directional move: the position one `step` away from `loc`.
pub fn move_target(loc: Point, direction: Direction, step: i32) -> (target: Option<Point>)
    ensures
        target is Some == (fits_i32(moved(loc, direction, step as int).0) && fits_i32(
            moved(loc, direction, step as int).1,
        )),
        target matches Some(p) ==> (p.x as int, p.y as int) == moved(loc, direction, step as int),
{
    let (ux, uy) = unit_vector(direction);
    let x = narrow(loc.x as i64 + ux * (step as i64));
    let y = narrow(loc.y as i64 + uy * (step as i64));
    match (x, y) {
        (Some(x), Some(y)) => Some(Point { x, y }),
        _ => None,
    }
}

/// Directional resize: the size to request after one `step`.
pub fn resize_target(size: Size, direction: Direction, step: i32) -> (target: Option<Size>)
    ensures
        target is Some == (fits_i32(resized(size, direction, step as int).0) && fits_i32(
            resized(size, direction, step as int).1,
        )),
        target matches Some(s) ==> (s.w as int, s.h as int) == resized(
            size,
            direction,
            step as int,
        ),
        target matches Some(s) ==> s.w >= MIN_WINDOW_SIZE && s.h >= MIN_WINDOW_SIZE,
{
    let (ux, uy) = unit_vector(direction);
    let mut w: i64 = size.w as i64 + ux * (step as i64);
    let mut h: i64 = size.h as i64 + uy * (step as i64);
    if w < MIN_WINDOW_SIZE as i64 {
        w = MIN_WINDOW_SIZE as i64;
    }
    if h < MIN_WINDOW_SIZE as i64 {
        h = MIN_WINDOW_SIZE as i64;
    }
    match (narrow(w), narrow(h)) {
        (Some(w), Some(h)) => Some(Size { w, h }),
        _ => None,
    }
}

/// Whether all four numbers of a geometry fit the machine's coordinates.
pub open spec fn geometry_fits(g: (int, int, int, int)) -> bool {
    fits_i32(g.0) && fits_i32(g.1) && fits_i32(g.2) && fits_i32(g.3)
}

/// Snap: the geometry of `position` on an output of size `output`, for a
/// window whose present size is `current`.
pub fn snap_geometry(
    position: SnapPosition,
    output: Size,
    outer_gap: i32,
    inner_gap: i32,
    current: Size,
) -> (target: Option<Rectangle>)
    ensures
        target is Some == geometry_fits(
            snapped(
                position,
                output.w as int,
                output.h as int,
                outer_gap as int,
                inner_gap as int,
                current.w as int,
                current.h as int,
            ),
        ),
        target matches Some(r) ==> (r.loc.x as int, r.loc.y as int, r.size.w as int, r.size.h as int)
            == snapped(
            position,
            output.w as int,
            output.h as int,
            outer_gap as int,
            inner_gap as int,
            current.w as int,
            current.h as int,
        ),
{
    let out_w: i64 = output.w as i64;
    let out_h: i64 = output.h as i64;
    let gap: i64 = outer_gap as i64;
    let inner: i64 = inner_gap as i64;
    let far_x: i64 = out_w / 2 + inner / 2;
    let far_y: i64 = out_h / 2 + inner / 2;
    let half_w: i64 = out_w / 2 - gap - inner / 2;
    let half_h: i64 = out_h / 2 - gap - inner / 2;
    let full_w: i64 = out_w - gap * 2;
    let full_h: i64 = out_h - gap * 2;
    let (x, y, w, h): (i64, i64, i64, i64) = match position {
        SnapPosition::Left => (gap, gap, half_w, full_h),
        SnapPosition::Right => (far_x, gap, half_w, full_h),
        SnapPosition::Top => (gap, gap, full_w, half_h),
        SnapPosition::Bottom => (gap, far_y, full_w, half_h),
        SnapPosition::TopLeft => (gap, gap, half_w, half_h),
        SnapPosition::TopRight => (far_x, gap, half_w, half_h),
        SnapPosition::BottomLeft => (gap, far_y, half_w, half_h),
        SnapPosition::BottomRight => (far_x, far_y, half_w, half_h),
        SnapPosition::Maximize => (gap, gap, full_w, full_h),
        SnapPosition::Center => (
            (out_w - current.w as i64) / 2,
            (out_h - current.h as i64) / 2,
            current.w as i64,
            current.h as i64,
        ),
    };
    match (narrow(x), narrow(y), narrow(w), narrow(h)) {
        (Some(x), Some(y), Some(w), Some(h)) => Some(
            Rectangle { loc: Point { x, y }, size: Size { w, h } },
        ),
        _ => None,
    }
}

} // verus!
