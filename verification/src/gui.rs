//! Pointer classification, text sizes and the projection of the overlay.

use vstd::prelude::*;
use cgmath::Vector2;
use crate::types::{ScreenPos, Size2};

verus! {

/// Largest pointer travel, in pixels and exclusive, that still counts as a tap.
pub const TAP_TOLERANCE_PX: i32 = 20;

/// Absolute value of an integer.
pub open spec fn abs(v: int) -> int {
    if v < 0 { -v } else { v }
}

/// Whether a press at `last_press` followed by a release at `current` stays
/// within `tolerance` pixels on both axes, the bound being exclusive.
pub open spec fn within_tolerance(current: ScreenPos, last_press: ScreenPos, tolerance: int) -> bool {
    &&& abs(current.x - last_press.x) < tolerance
    &&& abs(current.y - last_press.y) < tolerance
}

/// Component-wise difference `a - b` of two pixel positions.
///
/// Trusted: the subtraction is `cgmath`'s `Sub` for `Vector2<i64>`, which
/// subtracts the `x` fields and the `y` fields. The operands are widened from
/// `i32` first, so no difference can leave the range of `i64`.
#[verifier::external_body]
fn displacement(a: ScreenPos, b: ScreenPos) -> (d: (i64, i64))
    ensures
        d.0 == a.x - b.x,
        d.1 == a.y - b.y,
{
    let d = Vector2::new(a.x as i64, a.y as i64) - Vector2::new(b.x as i64, b.y as i64);
    (d.x, d.y)
}

/// Classifies a press/release pair with an explicit tolerance.
pub fn is_tap_with_tolerance(current: ScreenPos, last_press: ScreenPos, tolerance_px: i32) -> (tap: bool)
    ensures
        tap == within_tolerance(current, last_press, tolerance_px as int),
{
    let d = displacement(current, last_press);
    let dx: i64 = if d.0 < 0 { -d.0 } else { d.0 };
    let dy: i64 = if d.1 < 0 { -d.1 } else { d.1 };
    dx < tolerance_px as i64 && dy < tolerance_px as i64
}

/// Tells a tap from a swipe: the pointer moved less than
/// [`TAP_TOLERANCE_PX`] on each axis since it was pressed.
pub fn is_tap(current: ScreenPos, last_press: ScreenPos) -> (tap: bool)
    ensures
        tap == within_tolerance(current, last_press, TAP_TOLERANCE_PX as int),
{
    is_tap_with_tolerance(current, last_press, TAP_TOLERANCE_PX)
}

/// Number of text lines of the basic size that fit into the window's height.
pub const LINES_PER_SCREEN_H: i32 = 14;

/// A text height in pixels, kept as the exact fraction `numer / denom`.
#[derive(Clone, Copy, Debug, PartialEq, Eq, Structural)]
pub struct TextSize {
    pub numer: i32,
    pub denom: i32,
}

impl TextSize {
    /// Whether `self` is exactly half of `other`.
    pub open spec fn is_half_of(self, other: TextSize) -> bool {
        2 * self.numer * other.denom == other.numer * self.denom
    }
}

/// The value of [`basic_text_size`].
pub open spec fn basic_text_size_spec(win_size: Size2) -> TextSize {
    TextSize { numer: win_size.h, denom: LINES_PER_SCREEN_H }
}

/// The basic text height: the window's height divided by
/// [`LINES_PER_SCREEN_H`].
#[verifier::when_used_as_spec(basic_text_size_spec)]
pub fn basic_text_size(win_size: Size2) -> (size: TextSize)
    ensures
        size == basic_text_size(win_size),
{
    TextSize { numer: win_size.h, denom: LINES_PER_SCREEN_H }
}

/// The small text height: half the basic one.
pub fn small_text_size(win_size: Size2) -> (size: TextSize)
    ensures
        size.numer == win_size.h,
        size.denom == 2 * LINES_PER_SCREEN_H,
        size.is_half_of(basic_text_size(win_size)),
{
    let basic = basic_text_size(win_size);
    assert(2 * basic.numer * basic.denom == basic.numer * (2 * basic.denom)) by (nonlinear_arith);
    TextSize { numer: basic.numer, denom: 2 * basic.denom }
}

/// The six planes of an orthographic view volume, in pixels.
#[derive(Clone, Copy, Debug, PartialEq, Eq, Structural)]
pub struct OrthoBounds {
    pub left: i32,
    pub right: i32,
    pub bottom: i32,
    pub top: i32,
    pub near: i32,
    pub far: i32,
}

/// The view volume of a window: the origin in the bottom-left corner, the y
/// axis pointing up, one unit per pixel, depth from -1 to 1.
pub open spec fn window_bounds(win_size: Size2) -> OrthoBounds {
    OrthoBounds { left: 0, right: win_size.w, bottom: 0, top: win_size.h, near: (-1) as i32, far: 1 }
}

/// The view volume from which the overlay's projection matrix is built.
pub fn screen_projection_bounds(win_size: Size2) -> (bounds: OrthoBounds)
    ensures
        bounds == window_bounds(win_size),
{
    OrthoBounds { left: 0, right: win_size.w, bottom: 0, top: win_size.h, near: -1, far: 1 }
}

/// Where an orthographic projection of the interval `[lo, hi]` onto `[-1, 1]`
/// sends the coordinate `v`, multiplied by the interval's length `hi - lo`.
pub open spec fn projected_times_extent(lo: int, hi: int, v: int) -> int {
    2 * v - (hi + lo)
}

/// In exact arithmetic, an orthographic projection over a window's bounds
/// sends the window's bottom-left corner to `(-1, -1)` and its top-right
/// corner to `(1, 1)`: the projected coordinate times the extent equals minus
/// the extent at the lower bound and the extent itself at the upper bound.
pub proof fn lemma_window_corners_project_to_unit_square(win_size: Size2)
    ensures
        ({
            let b = window_bounds(win_size);
            &&& projected_times_extent(b.left as int, b.right as int, 0) == -(b.right - b.left)
            &&& projected_times_extent(b.left as int, b.right as int, win_size.w as int) == b.right
                - b.left
            &&& projected_times_extent(b.bottom as int, b.top as int, 0) == -(b.top - b.bottom)
            &&& projected_times_extent(b.bottom as int, b.top as int, win_size.h as int) == b.top
                - b.bottom
        }),
{
}

} // verus!
