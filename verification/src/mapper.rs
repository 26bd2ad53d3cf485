//! From a pointer position on a scaled preview to a pixel index of the image.
//!
//! Positions and extents are whole numbers of a unit that the caller picks: a
//! screen point, or a fixed fraction of one. The mapping takes the ratio of
//! two extents, so the result does not depend on the unit.

use crate::buffer::OutOfBounds;
use vstd::arithmetic::div_mod::{
    lemma_div_is_ordered,
    lemma_div_multiples_vanish,
    lemma_div_multiples_vanish_quotient,
    lemma_fundamental_div_mod_converse,
};
use vstd::prelude::*;

verus! {

/// A position on the screen.
#[derive(Clone, Copy, Debug, PartialEq, Eq, Structural)]
pub struct Point {
    pub x: i64,
    pub y: i64,
}

/// The rectangle that the preview of an image occupies on the screen.
#[derive(Clone, Copy, Debug, PartialEq, Eq, Structural)]
pub struct DisplayRect {
    pub origin: Point,
    pub width: u64,
    pub height: u64,
}

/// A press of the pointer, in the coordinates of the display rectangle.
#[derive(Clone, Copy, Debug, PartialEq, Eq, Structural)]
pub struct PointerEvent {
    pub position: Point,
}

/// The rectangle shows something: both of its extents are positive.
pub open spec fn shown(rect: DisplayRect) -> bool {
    rect.width > 0 && rect.height > 0
}

/// The position lies in the rectangle, both edges included on both axes.
pub open spec fn contains(rect: DisplayRect, p: Point) -> bool {
    &&& rect.origin.x <= p.x <= rect.origin.x + rect.width
    &&& rect.origin.y <= p.y <= rect.origin.y + rect.height
}

/// An offset on the preview, multiplied by the ratio of the image's width to
/// the preview's and rounded down.
pub open spec fn scaled(offset: int, source_width: int, display_width: int) -> int {
    (offset * source_width) / display_width
}

/// The image column under the position.
pub open spec fn mapped_x(p: Point, rect: DisplayRect, source_width: nat) -> int {
    scaled(p.x - rect.origin.x, source_width as int, rect.width as int)
}

/// The image row under the position. Rows are scaled by the ratio of the
/// widths, as columns are: the preview is taken to keep the image's aspect.
pub open spec fn mapped_y(p: Point, rect: DisplayRect, source_width: nat) -> int {
    scaled(p.y - rect.origin.y, source_width as int, rect.width as int)
}

/// The index of the pixel in that row and column.
pub open spec fn mapped_index(p: Point, rect: DisplayRect, source_width: nat) -> int {
    mapped_y(p, rect, source_width) * source_width + mapped_x(p, rect, source_width)
}

/// The position maps to a pixel of an image of `width` by `height`.
pub open spec fn maps(p: Point, rect: DisplayRect, width: nat, height: nat) -> bool {
    &&& shown(rect)
    &&& contains(rect, p)
    &&& 0 <= mapped_index(p, rect, width) < width * height
}

/// Maps a press on the preview to the index of the pixel under it, or
/// reports that there is none: the press is outside the rectangle, the
/// rectangle shows nothing, or the index falls outside the image.
pub fn map_pointer(pointer: PointerEvent, rect: DisplayRect, source_dims: (usize, usize)) -> (r:
    Result<usize, OutOfBounds>)
    requires
        source_dims.0 * source_dims.1 <= usize::MAX,
    ensures
        r is Ok <==> maps(pointer.position, rect, source_dims.0 as nat, source_dims.1 as nat),
        r is Ok ==> r->Ok_0 == mapped_index(pointer.position, rect, source_dims.0 as nat),
{
    let p = pointer.position;
    if rect.width == 0 || rect.height == 0 {
        return Err(OutOfBounds);
    }
    let dx: i128 = p.x as i128 - rect.origin.x as i128;
    let dy: i128 = p.y as i128 - rect.origin.y as i128;
    if dx < 0 || dx > rect.width as i128 || dy < 0 || dy > rect.height as i128 {
        return Err(OutOfBounds);
    }
    let w: u128 = source_dims.0 as u128;
    let h: u128 = source_dims.1 as u128;
    let shown_width: u128 = rect.width as u128;
    proof {
        let bound: int = 0x1_0000_0000_0000_0000;
        assert(dx * w < bound * bound && dy * w < bound * bound && 0 <= dx * w && 0 <= dy * w)
            by (nonlinear_arith)
            requires
                0 <= dx < bound,
                0 <= dy < bound,
                0 <= w < bound,
        ;
        assert(dx * w <= shown_width * w) by (nonlinear_arith)
            requires
                0 <= dx <= shown_width,
                0 <= w,
        ;
        lemma_div_is_ordered(dx * w, shown_width * w, shown_width as int);
        lemma_div_multiples_vanish(w as int, shown_width as int);
    }
    let x: u128 = (dx as u128 * w) / shown_width;
    let y: u128 = (dy as u128 * w) / shown_width;
    if y >= h {
        proof {
            assert(y * w + x >= w * h) by (nonlinear_arith)
                requires
                    y >= h,
                    0 <= w,
                    0 <= x,
                    0 <= h,
            ;
        }
        return Err(OutOfBounds);
    }
    proof {
        assert(0 <= y * w && y * w + w <= w * h) by (nonlinear_arith)
            requires
                0 <= y < h,
                0 <= w,
        ;
    }
    let index: u128 = y * w + x;
    if index < w * h {
        Ok(index as usize)
    } else {
        Err(OutOfBounds)
    }
}

/// Measuring the offset and the preview's width in a unit `k` times finer
/// gives the same column or row.
pub proof fn lemma_scaled_unit_free(offset: int, source_width: int, display_width: int, k: int)
    requires
        0 <= offset,
        0 <= source_width,
        0 < display_width,
        0 < k,
    ensures
        scaled(k * offset, source_width, k * display_width) == scaled(
            offset,
            source_width,
            display_width,
        ),
{
    assert(0 <= offset * source_width) by (nonlinear_arith)
        requires
            0 <= offset,
            0 <= source_width,
    ;
    assert((k * offset) * source_width == k * (offset * source_width)) by (nonlinear_arith);
    lemma_div_multiples_vanish_quotient(k, offset * source_width, display_width);
}

/// A press exactly at the rectangle's origin maps to the first pixel of any
/// image that has one.
pub proof fn lemma_origin_maps_to_first(rect: DisplayRect, width: nat, height: nat)
    requires
        shown(rect),
        width * height > 0,
    ensures
        maps(rect.origin, rect, width, height),
        mapped_index(rect.origin, rect, width) == 0,
{
    assert(0 * width == 0) by (nonlinear_arith);
    assert(0int / (rect.width as int) == 0);
}

/// A press before the origin or past the far edge, on either axis, maps to
/// nothing.
pub proof fn lemma_outside_has_no_mapping(p: Point, rect: DisplayRect, width: nat, height: nat)
    requires
        p.x < rect.origin.x || p.y < rect.origin.y || p.x > rect.origin.x + rect.width || p.y
            > rect.origin.y + rect.height,
    ensures
        !maps(p, rect, width, height),
{
}

/// On a preview that keeps the image's aspect, a press that lies `eps` inside
/// the far corner on both axes maps to the last pixel, for every positive
/// `eps` that is no wider than one pixel of the image as shown.
pub proof fn lemma_far_corner_maps_to_last(
    p: Point,
    rect: DisplayRect,
    width: nat,
    height: nat,
    eps: int,
)
    requires
        width > 0,
        height > 0,
        rect.height * width == height * rect.width,
        0 < eps,
        eps * width <= rect.width,
        p.x == rect.origin.x + rect.width - eps,
        p.y == rect.origin.y + rect.height - eps,
    ensures
        maps(p, rect, width, height),
        mapped_x(p, rect, width) == width - 1,
        mapped_y(p, rect, width) == height - 1,
        mapped_index(p, rect, width) == width * height - 1,
{
    let w = width as int;
    let h = height as int;
    let rw = rect.width as int;
    let rh = rect.height as int;
    assert(0 < eps * w && eps <= rw && eps <= rh) by (nonlinear_arith)
        requires
            rh * w == h * rw,
            0 < eps,
            eps * w <= rw,
            w > 0,
            h > 0,
    ;
    assert((rw - eps) * w == (w - 1) * rw + (rw - eps * w)) by (nonlinear_arith);
    lemma_fundamental_div_mod_converse((rw - eps) * w, rw, w - 1, rw - eps * w);
    assert((rh - eps) * w == (h - 1) * rw + (rw - eps * w)) by (nonlinear_arith)
        requires
            rh * w == h * rw,
    ;
    lemma_fundamental_div_mod_converse((rh - eps) * w, rw, h - 1, rw - eps * w);
    assert((h - 1) * w + (w - 1) == w * h - 1) by (nonlinear_arith);
}

} // verus!
