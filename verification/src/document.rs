//! The parsed-document model this crate consumes.
//!
//! An upstream parser (outside this crate) turns the raw file into these
//! plain records: a tree of nodes per scene, each node annotated with its
//! world transform, plus shared tables of materials, textures, images and
//! binary buffers. Scalars are 32-bit encodings of single-precision values
//! (see [`crate::vector`]); where a derived quantity needs floating-point
//! arithmetic (a composed world matrix, a normalized direction), the parser
//! layer computes it and this crate copies it verbatim.

use vstd::prelude::*;

use crate::scene::model::mode::Mode;
use crate::scene::model::vertex::VertexColor;
use crate::texture::ImageKind;
use crate::vector::{Mat4, Vec2, Vec3, Vec4};

verus! {

/// One scene of the document: its root nodes, in document order, plus the
/// scene's optional metadata.
pub struct SceneDesc {
    /// The scene's name, when the document carries one.
    pub name: Option<String>,
    /// The scene's extra data, as its raw JSON text.
    pub extras: Option<String>,
    /// The scene's root nodes.
    pub nodes: Vec<Node>,
}

/// A point in the scene hierarchy: a world transform, optional camera,
/// light and mesh attachments, and child nodes. A source node reachable
/// through several parents appears here once per path, which mirrors
/// multiple-instancing semantics.
pub struct Node {
    /// World transform of this node: the parent's world transform times the
    /// node's local transform, composed by the parser layer.
    pub world: Mat4,
    /// Camera attached to this node, if any.
    pub camera: Option<CameraDesc>,
    /// Light attached to this node, if any.
    pub light: Option<LightDesc>,
    /// Primitives of the mesh attached to this node, if any.
    pub mesh: Option<MeshDesc>,
    /// Child nodes, in document order.
    pub children: Vec<Node>,
}

/// The camera parameters a node may carry.
pub struct CameraDesc {
    /// The camera's name, when the document carries one.
    pub name: Option<String>,
    /// The camera's extra data, as its raw JSON text.
    pub extras: Option<String>,
    /// Projection parameters.
    pub projection: ProjectionDesc,
}

/// Projection parameters of a camera in the document.
pub enum ProjectionDesc {
    /// Perspective projection.
    Perspective {
        /// Y-axis field of view, in radians.
        yfov: u32,
        /// Aspect ratio, if specified.
        aspect_ratio: Option<u32>,
        /// Near clip distance.
        znear: u32,
        /// Far clip distance; absent means infinitely far.
        zfar: Option<u32>,
    },
    /// Orthographic projection.
    Orthographic {
        /// Horizontal magnification.
        xmag: u32,
        /// Vertical magnification.
        ymag: u32,
        /// Near clip distance.
        znear: u32,
        /// Far clip distance.
        zfar: u32,
    },
}

/// The light parameters a node may carry.
pub struct LightDesc {
    /// The light's name, when the document carries one.
    pub name: Option<String>,
    /// Which kind of light this is.
    pub kind: LightKindDesc,
    /// Light color.
    pub color: Vec3,
    /// Light intensity (lux for directional lights, candela otherwise).
    pub intensity: u32,
    /// Unit vector the light points along: the node's negated, normalized
    /// third world-transform column, computed by the parser layer.
    pub direction: Vec3,
}

/// The kind of a light in the document.
pub enum LightKindDesc {
    /// Light from infinitely far away, along `direction`.
    Directional,
    /// Light emitted from a position in all directions.
    Point,
    /// Light emitted from a position in a cone around `direction`.
    Spot {
        /// Angle, in radians, within which the spot light is at full strength.
        inner_cone_angle: u32,
        /// Angle, in radians, outside of which the spot light is off.
        outer_cone_angle: u32,
    },
}

/// The primitives of a mesh, together with the mesh metadata every model
/// built from it shares.
pub struct MeshDesc {
    /// The mesh's name, when the document carries one.
    pub name: Option<String>,
    /// The mesh's extra data, as its raw JSON text.
    pub extras: Option<String>,
    /// The mesh's primitives, in document order.
    pub primitives: Vec<PrimitiveDesc>,
}

/// One drawable sub-piece of a mesh: per-vertex attribute streams, an
/// optional index stream, a draw mode and a material reference. Positions,
/// normals and tangent directions are already in world space (transformed
/// by the parser layer with this node's world matrix); texture coordinates
/// and colors are verbatim source data.
pub struct PrimitiveDesc {
    /// World-space positions; the one required stream.
    pub positions: Vec<Vec3>,
    /// World-space unit normals, when the source has a normal stream.
    pub normals: Option<Vec<Vec3>>,
    /// World-space tangents, when the source has a tangent stream.
    pub tangents: Option<Vec<TangentDesc>>,
    /// Texture coordinates, when the source has a texcoord stream.
    pub tex_coords: Option<Vec<Vec2>>,
    /// Vertex colors (16-bit channels), when the source has a color stream.
    pub colors: Option<Vec<VertexColor>>,
    /// Index stream, upcast to `u32`; absent means the implicit list
    /// `0..positions.len()`.
    pub indices: Option<Vec<u32>>,
    /// Draw mode.
    pub mode: Mode,
    /// Index of this primitive's material in the document's material table;
    /// absent means the document's default material.
    pub material: Option<usize>,
    /// The primitive's extra data, as its raw JSON text.
    pub extras: Option<String>,
}

impl PrimitiveDesc {
    /// Well-formedness of the streams: the vertex count fits the index
    /// width, no optional stream is longer than the position stream, and
    /// every index selects an existing vertex.
    pub open spec fn wf(self) -> bool {
        &&& self.positions@.len() <= u32::MAX
        &&& (self.normals matches Some(v) ==> v@.len() <= self.positions@.len())
        &&& (self.tangents matches Some(v) ==> v@.len() <= self.positions@.len())
        &&& (self.tex_coords matches Some(v) ==> v@.len() <= self.positions@.len())
        &&& (self.colors matches Some(v) ==> v@.len() <= self.positions@.len())
        &&& (self.indices matches Some(ix) ==> forall|i: int|
            0 <= i < ix@.len() ==> ((#[trigger] ix@[i]) as int) < self.positions@.len())
    }
}

/// A source tangent: the transformed, normalized direction and the original
/// handedness sign, kept apart so that the untouched sign is re-attached as
/// the fourth vertex component.
#[derive(Clone, Copy, Debug, PartialEq, Eq, Structural)]
pub struct TangentDesc {
    /// World-space unit tangent direction.
    pub direction: Vec3,
    /// The handedness sign from the source stream, untransformed.
    pub sign: u32,
}

/// A material as the document states it: scalar factors plus texture-table
/// references.
#[derive(Clone, Copy, Debug)]
pub struct MaterialDesc {
    /// Scaling factors for red, green, blue and alpha of the base color.
    pub base_color_factor: Vec4,
    /// Base color texture reference.
    pub base_color_texture: Option<usize>,
    /// Metalness scaling factor.
    pub metallic_factor: u32,
    /// Roughness scaling factor.
    pub roughness_factor: u32,
    /// Packed metallic-roughness texture reference (roughness in the green
    /// channel, metalness in the blue channel).
    pub metallic_roughness_texture: Option<usize>,
    /// Normal map reference with its strength scalar.
    pub normal_texture: Option<TextureWithFactor>,
    /// Occlusion texture reference (occlusion in the red channel) with its
    /// strength scalar.
    pub occlusion_texture: Option<TextureWithFactor>,
    /// Scaling factors for red, green and blue of the emissive color.
    pub emissive_factor: Vec3,
    /// Emissive texture reference.
    pub emissive_texture: Option<usize>,
    /// Alpha cutoff value.
    pub alpha_cutoff: u32,
}

/// A texture-table reference paired with a strength scalar.
#[derive(Clone, Copy, Debug, PartialEq, Eq, Structural)]
pub struct TextureWithFactor {
    /// Index into the document's texture table.
    pub texture: usize,
    /// Strength scalar.
    pub factor: u32,
}

impl MaterialDesc {
    /// The material a primitive without a material reference uses: white
    /// base color, full metalness and roughness, no textures, no emission,
    /// and an alpha cutoff of one half.
    pub open spec fn default_spec() -> MaterialDesc {
        MaterialDesc {
            base_color_factor: Vec4 {
                x: crate::F32_ONE_BITS,
                y: crate::F32_ONE_BITS,
                z: crate::F32_ONE_BITS,
                w: crate::F32_ONE_BITS,
            },
            base_color_texture: None,
            metallic_factor: crate::F32_ONE_BITS,
            roughness_factor: crate::F32_ONE_BITS,
            metallic_roughness_texture: None,
            normal_texture: None,
            occlusion_texture: None,
            emissive_factor: Vec3 { x: 0, y: 0, z: 0 },
            emissive_texture: None,
            alpha_cutoff: crate::F32_HALF_BITS,
        }
    }
}

impl Default for MaterialDesc {
    /// The default material of a document.
    fn default() -> (r: MaterialDesc)
        ensures
            r == MaterialDesc::default_spec(),
    {
        MaterialDesc {
            base_color_factor: Vec4 {
                x: crate::F32_ONE_BITS,
                y: crate::F32_ONE_BITS,
                z: crate::F32_ONE_BITS,
                w: crate::F32_ONE_BITS,
            },
            base_color_texture: None,
            metallic_factor: crate::F32_ONE_BITS,
            roughness_factor: crate::F32_ONE_BITS,
            metallic_roughness_texture: None,
            normal_texture: None,
            occlusion_texture: None,
            emissive_factor: Vec3 { x: 0, y: 0, z: 0 },
            emissive_texture: None,
            alpha_cutoff: crate::F32_HALF_BITS,
        }
    }
}

/// Where the encoded bytes of one image come from.
pub enum ImageSource {
    /// A byte range of one of the document's binary buffers.
    View {
        /// Index into the buffer table.
        buffer: usize,
        /// Byte offset of the range.
        offset: usize,
        /// Byte length of the range.
        length: usize,
        /// Declared MIME type, e.g. `image/png`, as bytes.
        mime: Vec<u8>,
    },
    /// A `data:` URI embedding the encoded bytes in base64.
    DataUri {
        /// The whole URI, as bytes.
        uri: Vec<u8>,
        /// Declared MIME type as bytes, when the document states one apart
        /// from the URI itself.
        mime: Option<Vec<u8>>,
    },
    /// Bytes already read from an external file by the parser layer, with
    /// the format implied by the file name.
    Bytes {
        /// The encoded bytes.
        bytes: Vec<u8>,
        /// The encoded format.
        format: ImageKind,
    },
}

} // verus!
