//! Units of measure and the saturating step that every integration uses.
//!
//! Time is counted in ticks of one millisecond. One unit of velocity is one
//! unit of acceleration sustained for one tick, and one unit of position is one
//! unit of velocity sustained for one tick. With these units
//! `position + velocity * dt` and `velocity + acceleration * dt` are integers.

use vstd::prelude::*;

verus! {

/// Ticks of time in one second.
pub const TICKS_PER_SECOND: i64 = 1_000;

/// Units of acceleration in one world unit per second squared.
pub const ACCELERATION_UNITS: i64 = 10;

/// Units of velocity in one world unit per second.
pub const VELOCITY_UNITS: i64 = 10_000;

/// Units of position (and of length) in one world unit.
pub const POSITION_UNITS: i64 = 10_000_000;

/// The value of a fully lit colour channel.
pub const COLOR_ONE: i64 = 1_000;

/// The integer `v` brought into the range of `i64`.
pub open spec fn clamp(v: int) -> int {
    if v < i64::MIN {
        i64::MIN as int
    } else if v > i64::MAX {
        i64::MAX as int
    } else {
        v
    }
}

/// Whether `v` can be held in an `i64` as it is.
pub open spec fn fits(v: int) -> bool {
    i64::MIN <= v <= i64::MAX
}

/// `base + rate * dt`, held at the nearest bound of `i64` where it leaves the range.
pub fn advance(base: i64, rate: i64, dt: u32) -> (r: i64)
    ensures
        r == clamp(base + rate * dt),
        fits(base + rate * dt) ==> r == base + rate * dt,
{
    let wide_rate: i128 = rate as i128;
    let wide_dt: i128 = dt as i128;
    assert(-0x8000_0000_0000_0000_0000_0000 <= wide_rate * wide_dt
        <= 0x8000_0000_0000_0000_0000_0000) by (nonlinear_arith)
        requires
            -0x8000_0000_0000_0000 <= wide_rate <= 0x7fff_ffff_ffff_ffff,
            0 <= wide_dt <= 0xffff_ffff,
    ;
    let wide: i128 = base as i128 + wide_rate * wide_dt;
    if wide < i64::MIN as i128 {
        i64::MIN
    } else if wide > i64::MAX as i128 {
        i64::MAX
    } else {
        wide as i64
    }
}

} // verus!
