//! Vertices and the triangle/line aggregates built from them.

use vstd::prelude::*;

use crate::vector::{Vec2, Vec3, Vec4};

verus! {

/// Represents the 3 vertices of a triangle.
pub type Triangle = [Vertex; 3];

/// Represents the 2 vertices of a line.
pub type Line = [Vertex; 2];

/// A vertex color with 16-bit channels, copied verbatim from the source
/// color stream.
#[derive(Clone, Copy, Debug, PartialEq, Eq, Structural)]
pub struct VertexColor {
    /// Red channel.
    pub r: u16,
    /// Green channel.
    pub g: u16,
    /// Blue channel.
    pub b: u16,
    /// Alpha channel.
    pub a: u16,
}

impl VertexColor {
    /// The all-zero color used when a primitive carries no color stream.
    pub fn zero() -> (r: VertexColor)
        ensures
            r == (VertexColor { r: 0, g: 0, b: 0, a: 0 }),
    {
        VertexColor { r: 0, g: 0, b: 0, a: 0 }
    }
}

/// Contains a position, normal, tangent, texture-coordinate and color record
/// for one vertex. Scalar components are 32-bit encodings of
/// single-precision values (see [`crate::vector`]).
#[derive(Clone, Copy, Debug, PartialEq, Eq, Structural)]
pub struct Vertex {
    /// World-space position.
    pub position: Vec3,
    /// World-space normal; meaningful only when the owning model reports
    /// `has_normals()`, otherwise the zero vector.
    pub normal: Vec3,
    /// World-space tangent direction in `x`, `y`, `z`; the `w` component is
    /// the handedness sign of the tangent basis, copied unchanged from the
    /// source stream.
    pub tangent: Vec4,
    /// Texture coordinates, copied verbatim from the source stream.
    pub tex_coords: Vec2,
    /// Vertex color, copied verbatim from the source stream.
    pub color: VertexColor,
}

impl Vertex {
    /// The all-zero vertex, at the specification level.
    pub open spec fn zero_spec() -> Vertex {
        Vertex {
            position: Vec3 { x: 0, y: 0, z: 0 },
            normal: Vec3 { x: 0, y: 0, z: 0 },
            tangent: Vec4 { x: 0, y: 0, z: 0, w: 0 },
            tex_coords: Vec2 { x: 0, y: 0 },
            color: VertexColor { r: 0, g: 0, b: 0, a: 0 },
        }
    }
}

impl Default for Vertex {
    /// Every field starts at the encoding of zero.
    fn default() -> (r: Vertex)
        ensures
            r == Vertex::zero_spec(),
    {
        Vertex {
            position: Vec3::zero(),
            normal: Vec3::zero(),
            tangent: Vec4::zero(),
            tex_coords: Vec2::zero(),
            color: VertexColor::zero(),
        }
    }
}

} // verus!
