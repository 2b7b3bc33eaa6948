//! Points and offsets in the plane and in space, over fixed-point scalars.

use vstd::prelude::*;
use crate::fixed::{saturate, saturating_add};

verus! {

/// A point or an offset in the plane.
#[derive(Clone, Copy, Debug, PartialEq, Eq, Structural)]
pub struct Vec2 {
    pub x: i64,
    pub y: i64,
}

/// A point or an offset in space; `z` is the draw depth.
#[derive(Clone, Copy, Debug, PartialEq, Eq, Structural)]
pub struct Vec3 {
    pub x: i64,
    pub y: i64,
    pub z: i64,
}

/// The square of the distance between two points of the plane.
pub open spec fn distance_squared(a: Vec2, b: Vec2) -> int {
    (a.x - b.x) * (a.x - b.x) + (a.y - b.y) * (a.y - b.y)
}

/// The square of `a - b`, which fits a `u128` for any two `i64` values.
fn square_of_difference(a: i64, b: i64) -> (r: u128)
    ensures
        r == (a - b) * (a - b),
        r <= 0xffff_ffff_ffff_fffe_0000_0000_0000_0001,
{
    let d: i128 = (a as i128) - (b as i128);
    let m: u128 = if d < 0 {
        (-d) as u128
    } else {
        d as u128
    };
    assert(m * m == (a - b) * (a - b) && m * m <= 0xffff_ffff_ffff_fffe_0000_0000_0000_0001)
        by (nonlinear_arith)
        requires
            m == a - b || m == -(a - b),
            0 <= m <= 0xffff_ffff_ffff_ffff,
    ;
    m * m
}

impl Vec2 {
    /// The offset that moves nothing.
    pub open spec fn origin() -> Vec2 {
        Vec2 { x: 0, y: 0 }
    }

    /// This point of the plane at depth `z`.
    pub open spec fn extended(self, z: i64) -> Vec3 {
        Vec3 { x: self.x, y: self.y, z }
    }

    /// The point with the coordinates `x` and `y`.
    pub fn new(x: i64, y: i64) -> (v: Vec2)
        ensures
            v == (Vec2 { x, y }),
    {
        Vec2 { x, y }
    }

    /// The offset that moves nothing.
    pub fn zero() -> (v: Vec2)
        ensures
            v == Vec2::origin(),
    {
        Vec2 { x: 0, y: 0 }
    }

    /// This point of the plane at depth `z`.
    pub fn extend(self, z: i64) -> (v: Vec3)
        ensures
            v == self.extended(z),
    {
        Vec3 { x: self.x, y: self.y, z }
    }

    /// Whether `other` lies no further from this point than `radius`: the
    /// squares are compared, so a distance equal to the radius is within.
    pub fn within(self, other: Vec2, radius: i64) -> (b: bool)
        ensures
            b == (distance_squared(self, other) <= radius * radius),
    {
        let dx: u128 = square_of_difference(self.x, other.x);
        let dy: u128 = square_of_difference(self.y, other.y);
        let m: u128 = if radius < 0 {
            (-(radius as i128)) as u128
        } else {
            radius as u128
        };
        assert(m * m == radius * radius && m * m <= 0x4000_0000_0000_0000_0000_0000_0000_0000)
            by (nonlinear_arith)
            requires
                m == radius || m == -radius,
                0 <= m <= 0x8000_0000_0000_0000,
        ;
        let limit: u128 = m * m;
        match dx.checked_add(dy) {
            Some(d) => d <= limit,
            None => false,
        }
    }
}

impl Vec3 {
    /// The sum of two offsets, each coordinate held to the `i64` range.
    pub open spec fn plus(self, other: Vec3) -> Vec3 {
        Vec3 {
            x: saturate(self.x + other.x) as i64,
            y: saturate(self.y + other.y) as i64,
            z: saturate(self.z + other.z) as i64,
        }
    }

    /// The point without its depth.
    pub open spec fn planar(self) -> Vec2 {
        Vec2 { x: self.x, y: self.y }
    }

    /// The point with the coordinates `x`, `y` and `z`.
    pub fn new(x: i64, y: i64, z: i64) -> (v: Vec3)
        ensures
            v == (Vec3 { x, y, z }),
    {
        Vec3 { x, y, z }
    }

    /// The point without its depth.
    pub fn xy(self) -> (v: Vec2)
        ensures
            v == self.planar(),
    {
        Vec2 { x: self.x, y: self.y }
    }

    /// The sum of two offsets, each coordinate held to the `i64` range.
    pub fn saturating_add(self, other: Vec3) -> (v: Vec3)
        ensures
            v == self.plus(other),
    {
        Vec3 {
            x: saturating_add(self.x, other.x),
            y: saturating_add(self.y, other.y),
            z: saturating_add(self.z, other.z),
        }
    }
}

} // verus!
