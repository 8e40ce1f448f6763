//! World-space cameras.

use vstd::prelude::*;

use crate::document::{CameraDesc, ProjectionDesc};
use crate::vector::{Mat4, Vec2, Vec3};
use crate::F32_INFINITY_BITS;

verus! {

/// Contains camera properties. Scalars are 32-bit encodings of
/// single-precision values; direction-vector helpers that need
/// normalization (right/up/forward) are floating-point work and live in the
/// application layer, which reads `transform` directly.
#[derive(Clone, Debug)]
pub struct Camera {
    /// Camera name, when the document carries one.
    pub name: Option<String>,

    /// Camera extra data, as its raw JSON text.
    pub extras: Option<String>,

    /// World transform of the camera's node.
    pub transform: Mat4,

    /// Projection type and specific parameters.
    pub projection: Projection,

    /// The distance to the far clipping plane. For perspective projection
    /// this may be the encoding of positive infinity.
    pub zfar: u32,

    /// The distance to the near clipping plane.
    pub znear: u32,
}

/// Camera projections.
#[derive(Clone, Debug)]
pub enum Projection {
    /// Perspective projection.
    Perspective {
        /// Y-axis field of view, in radians.
        yfov: u32,
        /// Aspect ratio, if specified.
        aspect_ratio: Option<u32>,
    },
    /// Orthographic projection.
    Orthographic {
        /// Projection scale.
        scale: Vec2,
    },
}

/// The 32-bit encoding of the default field of view (0.399 radians).
pub const DEFAULT_YFOV_BITS: u32 = 0x3ECC_49BA;

impl Default for Projection {
    /// A perspective projection with the default field of view and no
    /// aspect ratio.
    fn default() -> (r: Projection)
        ensures
            r == (Projection::Perspective {
                yfov: DEFAULT_YFOV_BITS,
                aspect_ratio: None::<u32>,
            }),
    {
        Projection::Perspective { yfov: DEFAULT_YFOV_BITS, aspect_ratio: None }
    }
}

impl Camera {
    /// Position of the camera: the translation column of its world
    /// transform.
    pub fn position(&self) -> (r: Vec3)
        ensures
            r == self.transform.translation_spec(),
    {
        Vec3 { x: self.transform.c3.x, y: self.transform.c3.y, z: self.transform.c3.z }
    }

    /// The camera `desc` describes at a node with world transform
    /// `transform`: the transform is stored whole, the projection
    /// parameters are copied, and a perspective camera without an explicit
    /// far plane gets an infinite one.
    pub open spec fn load_spec(desc: CameraDesc, transform: Mat4) -> Camera {
        match desc.projection {
            ProjectionDesc::Orthographic { xmag, ymag, znear, zfar } => Camera {
                name: desc.name,
                extras: desc.extras,
                transform,
                projection: Projection::Orthographic { scale: Vec2 { x: xmag, y: ymag } },
                zfar,
                znear,
            },
            ProjectionDesc::Perspective { yfov, aspect_ratio, znear, zfar } => Camera {
                name: desc.name,
                extras: desc.extras,
                transform,
                projection: Projection::Perspective { yfov, aspect_ratio },
                zfar: match zfar {
                    Some(f) => f,
                    None => F32_INFINITY_BITS,
                },
                znear,
            },
        }
    }

    /// Extracts the world-space camera for one node.
    pub fn load(desc: &CameraDesc, transform: &Mat4) -> (r: Camera)
        ensures
            r == Camera::load_spec(*desc, *transform),
    {
        match &desc.projection {
            ProjectionDesc::Orthographic { xmag, ymag, znear, zfar } => Camera {
                name: crate::clone_opt_string(&desc.name),
                extras: crate::clone_opt_string(&desc.extras),
                transform: *transform,
                projection: Projection::Orthographic { scale: Vec2 { x: *xmag, y: *ymag } },
                zfar: *zfar,
                znear: *znear,
            },
            ProjectionDesc::Perspective { yfov, aspect_ratio, znear, zfar } => Camera {
                name: crate::clone_opt_string(&desc.name),
                extras: crate::clone_opt_string(&desc.extras),
                transform: *transform,
                projection: Projection::Perspective {
                    yfov: *yfov,
                    aspect_ratio: match aspect_ratio {
                        Some(a) => Some(*a),
                        None => None,
                    },
                },
                zfar: match zfar {
                    Some(f) => *f,
                    None => F32_INFINITY_BITS,
                },
                znear: *znear,
            },
        }
    }
}

impl Default for Camera {
    /// An unnamed camera at the all-zero transform with the default
    /// projection, an infinitely far far plane and a near plane at zero.
    fn default() -> (r: Camera)
        ensures
            r.name is None,
            r.extras is None,
            r.transform == Mat4::zero_spec(),
            r.projection == (Projection::Perspective {
                yfov: DEFAULT_YFOV_BITS,
                aspect_ratio: None::<u32>,
            }),
            r.zfar == F32_INFINITY_BITS,
            r.znear == 0u32,
    {
        Camera {
            name: None,
            extras: None,
            transform: Mat4::zero(),
            projection: Projection::default(),
            zfar: F32_INFINITY_BITS,
            znear: 0,
        }
    }
}

} // verus!
