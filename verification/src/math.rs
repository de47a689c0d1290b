//! Places and displacements in fixed point.
//!
//! The world is measured in thousandths of a world unit. A [`Point`] holds
//! what the engine reports, in 32 bits a coordinate; a [`Vector`] holds what
//! the rules compute from points, in 64 bits, so that no sum or difference in
//! this crate can overflow.

use vstd::prelude::*;

verus! {

/// A place in the world, or an offset from one, in thousandths of a world unit.
#[derive(Clone, Copy, Debug, PartialEq, Eq, Structural)]
pub struct Point {
    pub x: i32,
    pub y: i32,
    pub z: i32,
}

/// A sum or a difference of places, in thousandths of a world unit.
#[derive(Clone, Copy, Debug, PartialEq, Eq, Structural)]
pub struct Vector {
    pub x: i64,
    pub y: i64,
    pub z: i64,
}

/// The largest magnitude of a coordinate of a sum of two points.
pub const REACH: i64 = 0x1_0000_0000;

impl Point {
    /// The sum of two points, coordinate by coordinate.
    pub open spec fn plus(self, offset: Point) -> Vector {
        Vector {
            x: (self.x + offset.x) as i64,
            y: (self.y + offset.y) as i64,
            z: (self.z + offset.z) as i64,
        }
    }

    /// Adds `offset` to this point.
    pub fn offset_by(&self, offset: &Point) -> (sum: Vector)
        ensures
            sum == self.plus(*offset),
            sum.in_reach(),
    {
        Vector {
            x: self.x as i64 + offset.x as i64,
            y: self.y as i64 + offset.y as i64,
            z: self.z as i64 + offset.z as i64,
        }
    }
}

impl Vector {
    /// Holds of every sum of two points: each coordinate is at most [`REACH`]
    /// in magnitude.
    pub open spec fn in_reach(self) -> bool {
        &&& -REACH <= self.x <= REACH
        &&& -REACH <= self.y <= REACH
        &&& -REACH <= self.z <= REACH
    }

    /// The displacement from this place to `target`: `target - self`, not
    /// normalised.
    pub open spec fn towards(self, target: Point) -> Vector {
        Vector {
            x: (target.x - self.x) as i64,
            y: (target.y - self.y) as i64,
            z: (target.z - self.z) as i64,
        }
    }

    /// The square of the Euclidean distance from this place to `target`.
    /// Distances are never negative, so one distance is at most another
    /// exactly when its square is.
    pub open spec fn distance_squared(self, target: Point) -> int {
        (target.x - self.x) * (target.x - self.x)
            + (target.y - self.y) * (target.y - self.y)
            + (target.z - self.z) * (target.z - self.z)
    }

    /// Computes the displacement from this place to `target`.
    pub fn direction_to(&self, target: &Point) -> (aim: Vector)
        requires
            self.in_reach(),
        ensures
            aim == self.towards(*target),
    {
        Vector {
            x: target.x as i64 - self.x,
            y: target.y as i64 - self.y,
            z: target.z as i64 - self.z,
        }
    }

    /// Computes the square of the distance from this place to `target`.
    pub fn distance_squared_to(&self, target: &Point) -> (square: u128)
        requires
            self.in_reach(),
        ensures
            square == self.distance_squared(*target),
    {
        let dx: i128 = target.x as i128 - self.x as i128;
        let dy: i128 = target.y as i128 - self.y as i128;
        let dz: i128 = target.z as i128 - self.z as i128;
        assert(0 <= dx * dx <= 0x4_0000_0000_0000_0000) by (nonlinear_arith)
            requires
                -0x2_0000_0000 <= dx <= 0x2_0000_0000,
        ;
        assert(0 <= dy * dy <= 0x4_0000_0000_0000_0000) by (nonlinear_arith)
            requires
                -0x2_0000_0000 <= dy <= 0x2_0000_0000,
        ;
        assert(0 <= dz * dz <= 0x4_0000_0000_0000_0000) by (nonlinear_arith)
            requires
                -0x2_0000_0000 <= dz <= 0x2_0000_0000,
        ;
        let square: i128 = dx * dx + dy * dy + dz * dz;
        square as u128
    }
}

} // verus!
