//! Small fixed-size vector and matrix records.
//!
//! Every component is the 32-bit encoding of an IEEE 754 single-precision
//! value. The crate moves these encodings around verbatim and never performs
//! floating-point arithmetic on them; the application layer converts to and
//! from `f32` at the boundary.

use vstd::prelude::*;

verus! {

/// A two-component vector of 32-bit scalar encodings.
#[derive(Clone, Copy, Debug, PartialEq, Eq, Structural)]
pub struct Vec2 {
    /// First component.
    pub x: u32,
    /// Second component.
    pub y: u32,
}

/// A three-component vector of 32-bit scalar encodings.
#[derive(Clone, Copy, Debug, PartialEq, Eq, Structural)]
pub struct Vec3 {
    /// First component.
    pub x: u32,
    /// Second component.
    pub y: u32,
    /// Third component.
    pub z: u32,
}

/// A four-component vector of 32-bit scalar encodings.
#[derive(Clone, Copy, Debug, PartialEq, Eq, Structural)]
pub struct Vec4 {
    /// First component.
    pub x: u32,
    /// Second component.
    pub y: u32,
    /// Third component.
    pub z: u32,
    /// Fourth component.
    pub w: u32,
}

/// A 4x4 matrix of 32-bit scalar encodings, stored as four columns
/// (column-vector convention: `c0` = right, `c1` = up, `c2` = backward,
/// `c3` = translation for a rigid world transform).
#[derive(Clone, Copy, Debug, PartialEq, Eq, Structural)]
pub struct Mat4 {
    /// Column 0.
    pub c0: Vec4,
    /// Column 1.
    pub c1: Vec4,
    /// Column 2.
    pub c2: Vec4,
    /// Column 3.
    pub c3: Vec4,
}

impl Vec2 {
    /// The vector whose components all carry the encoding of positive zero.
    pub fn zero() -> (r: Vec2)
        ensures
            r == (Vec2 { x: 0, y: 0 }),
    {
        Vec2 { x: 0, y: 0 }
    }
}

impl Vec3 {
    /// The vector whose components all carry the encoding of positive zero.
    pub fn zero() -> (r: Vec3)
        ensures
            r == (Vec3 { x: 0, y: 0, z: 0 }),
    {
        Vec3 { x: 0, y: 0, z: 0 }
    }
}

impl Vec4 {
    /// The vector whose components all carry the encoding of positive zero.
    pub fn zero() -> (r: Vec4)
        ensures
            r == (Vec4 { x: 0, y: 0, z: 0, w: 0 }),
    {
        Vec4 { x: 0, y: 0, z: 0, w: 0 }
    }
}

impl Mat4 {
    /// The matrix whose entries all carry the encoding of positive zero.
    pub fn zero() -> (r: Mat4)
        ensures
            r == Mat4::zero_spec(),
    {
        Mat4 { c0: Vec4::zero(), c1: Vec4::zero(), c2: Vec4::zero(), c3: Vec4::zero() }
    }

    /// The all-zero matrix, at the specification level.
    pub open spec fn zero_spec() -> Mat4 {
        Mat4 {
            c0: Vec4 { x: 0, y: 0, z: 0, w: 0 },
            c1: Vec4 { x: 0, y: 0, z: 0, w: 0 },
            c2: Vec4 { x: 0, y: 0, z: 0, w: 0 },
            c3: Vec4 { x: 0, y: 0, z: 0, w: 0 },
        }
    }

    /// The translation column of the matrix, as a three-component vector.
    pub open spec fn translation_spec(self) -> Vec3 {
        Vec3 { x: self.c3.x, y: self.c3.y, z: self.c3.z }
    }

    /// Extracts the translation column (column 3) of the matrix.
    pub fn translation(&self) -> (r: Vec3)
        ensures
            r == self.translation_spec(),
    {
        Vec3 { x: self.c3.x, y: self.c3.y, z: self.c3.z }
    }
}

} // verus!
