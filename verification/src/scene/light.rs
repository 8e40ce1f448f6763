//! World-space lights.

use vstd::prelude::*;

use crate::document::{LightDesc, LightKindDesc};
use crate::vector::{Mat4, Vec3};

verus! {

/// Represents a light, frozen in world space at extraction time. Scalars
/// are 32-bit encodings of single-precision values.
#[derive(Clone, Debug)]
pub enum Light {
    /// Directional lights act as though they are infinitely far away and
    /// emit light in `direction`. Intensity is in lux.
    Directional {
        /// Light name, when the document carries one.
        name: Option<String>,
        /// Direction of the directional light: the node's negated,
        /// normalized third world-transform column.
        direction: Vec3,
        /// Color of the directional light.
        color: Vec3,
        /// Intensity of the directional light.
        intensity: u32,
    },
    /// Point lights emit light in all directions from their `position`.
    /// Intensity is in candela.
    Point {
        /// Light name, when the document carries one.
        name: Option<String>,
        /// Position of the point light: the translation column of the
        /// node's world transform.
        position: Vec3,
        /// Color of the point light.
        color: Vec3,
        /// Intensity of the point light.
        intensity: u32,
    },
    /// Spot lights emit light in a cone in `direction` from `position`.
    /// Intensity is in candela.
    Spot {
        /// Light name, when the document carries one.
        name: Option<String>,
        /// Position of the spot light.
        position: Vec3,
        /// Direction of the spot light.
        direction: Vec3,
        /// Color of the spot light.
        color: Vec3,
        /// Intensity of the spot light.
        intensity: u32,
        /// Inner cone angle of the spot light, in radians.
        inner_cone_angle: u32,
        /// Outer cone angle of the spot light, in radians.
        outer_cone_angle: u32,
    },
}

impl Light {
    /// The light `desc` describes at a node with world transform
    /// `transform`: positions come from the transform's translation column,
    /// directions from the parser-computed unit direction, and color,
    /// intensity and cone angles are copied verbatim.
    pub open spec fn load_spec(desc: LightDesc, transform: Mat4) -> Light {
        match desc.kind {
            LightKindDesc::Directional => Light::Directional {
                name: desc.name,
                direction: desc.direction,
                color: desc.color,
                intensity: desc.intensity,
            },
            LightKindDesc::Point => Light::Point {
                name: desc.name,
                position: transform.translation_spec(),
                color: desc.color,
                intensity: desc.intensity,
            },
            LightKindDesc::Spot { inner_cone_angle, outer_cone_angle } => Light::Spot {
                name: desc.name,
                position: transform.translation_spec(),
                direction: desc.direction,
                color: desc.color,
                intensity: desc.intensity,
                inner_cone_angle,
                outer_cone_angle,
            },
        }
    }

    /// Extracts the world-space light for one node.
    pub fn load(desc: &LightDesc, transform: &Mat4) -> (r: Light)
        ensures
            r == Light::load_spec(*desc, *transform),
    {
        match &desc.kind {
            LightKindDesc::Directional => Light::Directional {
                name: crate::clone_opt_string(&desc.name),
                direction: desc.direction,
                color: desc.color,
                intensity: desc.intensity,
            },
            LightKindDesc::Point => Light::Point {
                name: crate::clone_opt_string(&desc.name),
                position: transform.translation(),
                color: desc.color,
                intensity: desc.intensity,
            },
            LightKindDesc::Spot { inner_cone_angle, outer_cone_angle } => Light::Spot {
                name: crate::clone_opt_string(&desc.name),
                position: transform.translation(),
                direction: desc.direction,
                color: desc.color,
                intensity: desc.intensity,
                inner_cone_angle: *inner_cone_angle,
                outer_cone_angle: *outer_cone_angle,
            },
        }
    }
}

} // verus!
