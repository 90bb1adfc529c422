//! Mapping a point of the viewport to the world.
//!
//! A point of the viewport is given in pixels from the top left corner, with y
//! pointing down. Normalised to device coordinates it runs from -1 to 1 on both
//! axes, y pointing up; the inverse of an orthographic projection carries -1 to
//! the low extent and 1 to the high extent. The composition is a linear
//! interpolation between the extents, which is what this module computes.

use vstd::prelude::*;
use vstd::arithmetic::div_mod::{
    lemma_div_is_ordered,
    lemma_div_multiples_vanish,
    lemma_div_pos_is_pos,
    lemma_fundamental_div_mod,
    lemma_fundamental_div_mod_converse,
    lemma_mod_pos_bound,
};
use crate::vector::Vector3;

verus! {

/// The size of the viewport, in pixels.
#[derive(Clone, Copy, Debug, PartialEq, Eq, Structural)]
pub struct Viewport {
    pub width: u32,
    pub height: u32,
}

/// A point of the viewport: pixels from the top left corner, y pointing down.
#[derive(Clone, Copy, Debug, PartialEq, Eq, Structural)]
pub struct Pixel {
    pub x: u32,
    pub y: u32,
}

/// An orthographic projection, given by the world extents that it maps to the
/// edges of the viewport, in units of position.
#[derive(Clone, Copy, Debug, PartialEq, Eq, Structural)]
pub struct OrthographicProjection {
    pub left: i64,
    pub right: i64,
    pub bottom: i64,
    pub top: i64,
}

impl Viewport {
    /// The viewport has an area.
    pub open spec fn wf(self) -> bool {
        self.width > 0 && self.height > 0
    }

    /// Whether `point` lies in the viewport, edges included.
    pub open spec fn holds(self, point: Pixel) -> bool {
        point.x <= self.width && point.y <= self.height
    }
}

impl OrthographicProjection {
    /// Whether the projection can be inverted: no extent is collapsed.
    pub open spec fn invertible(self) -> bool {
        self.left != self.right && self.bottom != self.top
    }
}

/// The point that lies `part / whole` of the way from `low` to `high`, rounded
/// down.
pub open spec fn interpolated(low: int, high: int, part: int, whole: int) -> int {
    low + ((high - low) * part) / whole
}

/// The world-space point under `point`: x runs from the left extent at pixel 0
/// to the right extent at the full width; y runs from the top extent at pixel 0
/// down to the bottom extent at the full height; z is 0.
pub open spec fn world_point(
    viewport: Viewport,
    projection: OrthographicProjection,
    point: Pixel,
) -> Vector3 {
    Vector3 {
        x: interpolated(
            projection.left as int,
            projection.right as int,
            point.x as int,
            viewport.width as int,
        ) as i64,
        y: interpolated(
            projection.bottom as int,
            projection.top as int,
            viewport.height - point.y,
            viewport.height as int,
        ) as i64,
        z: 0,
    }
}

/// Rounding down the quotient of a negated number rounds the quotient up.
proof fn lemma_floor_of_negated(a: int, w: int)
    requires
        0 <= a,
        0 < w,
    ensures
        (-a) / w == -((a + w - 1) / w),
{
    let k = a / w;
    let r = a % w;
    lemma_fundamental_div_mod(a, w);
    lemma_mod_pos_bound(a, w);
    assert(w * k == k * w) by (nonlinear_arith);
    if r == 0 {
        assert(-a == (-k) * w + 0) by (nonlinear_arith)
            requires
                a == k * w + r,
                r == 0,
        ;
        lemma_fundamental_div_mod_converse(-a, w, -k, 0);
        lemma_fundamental_div_mod_converse(a + w - 1, w, k, w - 1);
    } else {
        assert(-a == (-(k + 1)) * w + (w - r)) by (nonlinear_arith)
            requires
                a == k * w + r,
        ;
        lemma_fundamental_div_mod_converse(-a, w, -(k + 1), w - r);
        assert(a + w - 1 == (k + 1) * w + (r - 1)) by (nonlinear_arith)
            requires
                a == k * w + r,
        ;
        lemma_fundamental_div_mod_converse(a + w - 1, w, k + 1, r - 1);
    }
}

/// A part of a span, rounded either way, is no more than the span.
proof fn lemma_part_within_span(span: int, part: int, whole: int)
    requires
        0 <= span,
        0 <= part <= whole,
        0 < whole,
    ensures
        0 <= (span * part) / whole <= span,
        0 <= (span * part + whole - 1) / whole <= span,
{
    assert(0 <= span * part <= span * whole) by (nonlinear_arith)
        requires
            0 <= span,
            0 <= part <= whole,
    ;
    assert(span * whole == whole * span) by (nonlinear_arith);
    lemma_div_pos_is_pos(span * part, whole);
    lemma_div_is_ordered(span * part, whole * span, whole);
    lemma_div_multiples_vanish(span, whole);
    lemma_floor_of_negated(span * part, whole);
    lemma_div_is_ordered(-(whole * span), -(span * part), whole);
    lemma_div_multiples_vanish(-span, whole);
    assert(whole * (-span) == -(whole * span)) by (nonlinear_arith);
    lemma_div_is_ordered(-(span * part), 0, whole);
}

/// Interpolates between `low` and `high`.
pub fn interpolate(low: i64, high: i64, part: u32, whole: u32) -> (r: i64)
    requires
        whole > 0,
        part <= whole,
    ensures
        r == interpolated(low as int, high as int, part as int, whole as int),
        low <= high ==> low <= r <= high,
        high <= low ==> high <= r <= low,
{
    if low <= high {
        let span: u128 = (high as i128 - low as i128) as u128;
        proof {
            lemma_part_within_span(span as int, part as int, whole as int);
            assert(span * part <= 0x1_0000_0000_0000_0000 * 0x1_0000_0000) by (nonlinear_arith)
                requires
                    0 <= span <= 0x1_0000_0000_0000_0000,
                    0 <= part <= 0x1_0000_0000,
            ;
        }
        let rise: u128 = (span * (part as u128)) / (whole as u128);
        (low as i128 + rise as i128) as i64
    } else {
        let span: u128 = (low as i128 - high as i128) as u128;
        proof {
            lemma_part_within_span(span as int, part as int, whole as int);
            lemma_floor_of_negated(span * part, whole as int);
            assert(span * part <= 0x1_0000_0000_0000_0000 * 0x1_0000_0000) by (nonlinear_arith)
                requires
                    0 <= span <= 0x1_0000_0000_0000_0000,
                    0 <= part <= 0x1_0000_0000,
            ;
            assert((high - low) * part == -(span * part)) by (nonlinear_arith)
                requires
                    high - low == -span,
            ;
        }
        let fall: u128 = (span * (part as u128) + (whole as u128 - 1)) / (whole as u128);
        (low as i128 - fall as i128) as i64
    }
}

/// Maps a point of the viewport to the world, at z = 0.
///
/// The viewport must have an area, the point must lie in it, and the
/// projection must be invertible.
pub fn window_to_world(
    viewport: Viewport,
    projection: OrthographicProjection,
    point: Pixel,
) -> (world: Vector3)
    requires
        viewport.wf(),
        viewport.holds(point),
        projection.invertible(),
    ensures
        world == world_point(viewport, projection, point),
        world.x == interpolated(
            projection.left as int,
            projection.right as int,
            point.x as int,
            viewport.width as int,
        ),
        world.y == interpolated(
            projection.bottom as int,
            projection.top as int,
            viewport.height - point.y,
            viewport.height as int,
        ),
        world.z == 0,
{
    Vector3 {
        x: interpolate(projection.left, projection.right, point.x, viewport.width),
        y: interpolate(
            projection.bottom,
            projection.top,
            viewport.height - point.y,
            viewport.height,
        ),
        z: 0,
    }
}

} // verus!
