//! Three-component integer vectors.

use vstd::prelude::*;
use crate::units::{advance, clamp};

verus! {

/// A vector of three integers: a position, a velocity or an acceleration,
/// according to the unit its components are counted in.
#[derive(Clone, Copy, Debug, PartialEq, Eq, Structural)]
pub struct Vector3 {
    pub x: i64,
    pub y: i64,
    pub z: i64,
}

impl Vector3 {
    /// `self + rate * dt`, component by component, each held within `i64`.
    pub open spec fn advanced(self, rate: Vector3, dt: int) -> Vector3 {
        Vector3 {
            x: clamp(self.x + rate.x * dt) as i64,
            y: clamp(self.y + rate.y * dt) as i64,
            z: clamp(self.z + rate.z * dt) as i64,
        }
    }

    /// Whether `self + rate * dt` can be held without saturating any component.
    pub open spec fn advance_fits(self, rate: Vector3, dt: int) -> bool {
        &&& crate::units::fits(self.x + rate.x * dt)
        &&& crate::units::fits(self.y + rate.y * dt)
        &&& crate::units::fits(self.z + rate.z * dt)
    }

    /// The vector with the given components.
    pub fn new(x: i64, y: i64, z: i64) -> (v: Vector3)
        ensures
            v == (Vector3 { x, y, z }),
    {
        Vector3 { x, y, z }
    }

    /// The zero vector.
    pub fn zero() -> (v: Vector3)
        ensures
            v == (Vector3 { x: 0, y: 0, z: 0 }),
    {
        Vector3 { x: 0, y: 0, z: 0 }
    }

    /// Moves `self` along `rate` for `dt` ticks.
    pub fn advance(self, rate: Vector3, dt: u32) -> (v: Vector3)
        ensures
            v == self.advanced(rate, dt as int),
            self.advance_fits(rate, dt as int) ==> {
                &&& v.x == self.x + rate.x * dt
                &&& v.y == self.y + rate.y * dt
                &&& v.z == self.z + rate.z * dt
            },
    {
        Vector3 {
            x: advance(self.x, rate.x, dt),
            y: advance(self.y, rate.y, dt),
            z: advance(self.z, rate.z, dt),
        }
    }
}

} // verus!
