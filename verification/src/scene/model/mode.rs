//! Draw mode of a primitive and the error raised when an accessor is called
//! on a model with an incompatible mode.

use vstd::prelude::*;

verus! {

/// The topology used to interpret a model's vertex/index stream.
#[derive(Clone, Copy, Debug, PartialEq, Eq, Structural)]
pub enum Mode {
    /// Each index stands alone as a point.
    Points,
    /// Consecutive pairs of indices form independent lines.
    Lines,
    /// Consecutive indices form a connected line, closed back to the start.
    LineLoop,
    /// Consecutive indices form a connected line.
    LineStrip,
    /// Consecutive triples of indices form independent triangles.
    Triangles,
    /// Consecutive indices form a strip of triangles with alternating winding.
    TriangleStrip,
    /// Indices after the first fan out from the first index.
    TriangleFan,
}

impl Mode {
    /// True for the three modes that `triangles()` accepts.
    pub open spec fn is_triangle_mode(self) -> bool {
        self is Triangles || self is TriangleStrip || self is TriangleFan
    }

    /// True for the three modes that `lines()` accepts.
    pub open spec fn is_line_mode(self) -> bool {
        self is Lines || self is LineLoop || self is LineStrip
    }
}

/// Error returned when `triangles()`, `lines()` or `points()` is called on a
/// model whose draw mode does not match the requested topology.
#[derive(Clone, Copy, Debug, PartialEq, Eq, Structural)]
pub struct BadMode {
    /// The draw mode the model actually has.
    pub mode: Mode,
}

} // verus!
