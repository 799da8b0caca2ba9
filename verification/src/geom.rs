//! Plain fixed-point vector and matrix aggregates.
//!
//! Components are fixed-point scalars (see [`crate::fixed`]).  The types are
//! bare data: the controller's arithmetic on them lives with the controller,
//! so each operation carries exactly the contract its caller needs.

use vstd::prelude::*;

verus! {

/// A planar fixed-point vector: pixel deltas, key-direction axes.
#[derive(Clone, Copy, PartialEq, Eq, Structural, Debug)]
pub struct Vec2Fx {
    pub x: i64,
    pub y: i64,
}

/// A world-space fixed-point vector.
#[derive(Clone, Copy, PartialEq, Eq, Structural, Debug)]
pub struct Vec3Fx {
    pub x: i64,
    pub y: i64,
    pub z: i64,
}

/// A row-major 3x3 fixed-point matrix; here always a rotation.
#[derive(Clone, Copy, PartialEq, Eq, Structural, Debug)]
pub struct Mat3Fx {
    pub m00: i64,
    pub m01: i64,
    pub m02: i64,
    pub m10: i64,
    pub m11: i64,
    pub m12: i64,
    pub m20: i64,
    pub m21: i64,
    pub m22: i64,
}

} // verus!
