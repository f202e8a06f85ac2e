//! Small fixed-point vector types.
//!
//! A component value of `1000` stands for one metre (or one unit of scale),
//! so `90` stands for 0.09 of a metre.

use vstd::prelude::*;

verus! {

/// A two-dimensional vector with fixed-point components.
#[derive(Clone, Copy, Debug, PartialEq, Eq, Structural)]
pub struct Vec2Fix {
    pub x: i64,
    pub y: i64,
}

/// A three-dimensional vector with fixed-point components.
#[derive(Clone, Copy, Debug, PartialEq, Eq, Structural)]
pub struct Vec3Fix {
    pub x: i64,
    pub y: i64,
    pub z: i64,
}

impl Vec2Fix {
    /// The zero vector.
    pub fn zero() -> (r: Self)
        ensures
            r.x == 0 && r.y == 0,
    {
        Vec2Fix { x: 0, y: 0 }
    }
}

impl Vec3Fix {
    /// The zero vector.
    pub fn zero() -> (r: Self)
        ensures
            r.x == 0 && r.y == 0 && r.z == 0,
    {
        Vec3Fix { x: 0, y: 0, z: 0 }
    }

    /// A vector with all three components set to `v`.
    pub fn splat(v: i64) -> (r: Self)
        ensures
            r.x == v && r.y == v && r.z == v,
    {
        Vec3Fix { x: v, y: v, z: v }
    }
}

/// A quaternion with fixed-point components; `1000` stands for 1.
#[derive(Clone, Copy, Debug, PartialEq, Eq, Structural)]
pub struct QuatFix {
    pub x: i64,
    pub y: i64,
    pub z: i64,
    pub w: i64,
}

impl QuatFix {
    /// The identity rotation.
    pub fn identity() -> (r: Self)
        ensures
            r.x == 0 && r.y == 0 && r.z == 0 && r.w == 1000,
    {
        QuatFix { x: 0, y: 0, z: 0, w: 1000 }
    }
}

impl Default for Vec2Fix {
    /// The zero vector.
    fn default() -> (r: Self)
        ensures
            r.x == 0 && r.y == 0,
    {
        Vec2Fix { x: 0, y: 0 }
    }
}

impl Default for Vec3Fix {
    /// The zero vector.
    fn default() -> (r: Self)
        ensures
            r.x == 0 && r.y == 0 && r.z == 0,
    {
        Vec3Fix { x: 0, y: 0, z: 0 }
    }
}

} // verus!
