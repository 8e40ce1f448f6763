//! Emissive color of a material.

use std::sync::Arc;
use vstd::prelude::*;

use crate::document::MaterialDesc;
use crate::texture::RgbTexture;
use crate::utils::GltfData;
use crate::vector::Vec3;
use crate::LoadError;

verus! {

/// The emissive color of the material.
#[derive(Clone, Debug)]
pub struct Emissive {
    /// The `texture` may be used to illuminate parts of the model surface:
    /// it defines the color of the light that is emitted from the surface.
    pub texture: Option<Arc<RgbTexture>>,

    /// Scaling factors for the red, green and blue components of this
    /// texture.
    pub factor: Vec3,
}

/// True when `em` carries the emissive factor of `desc` verbatim and the
/// RGB decode of the referenced emissive texture — absent exactly when
/// `desc` references none or `d` skips textures.
pub open spec fn emissive_matches(em: Emissive, d: GltfData, desc: MaterialDesc) -> bool {
    &&& em.factor == desc.emissive_factor
    &&& match (d.load_textures, desc.emissive_texture) {
        (true, Some(t)) => em.texture matches Some(h) && (*h).wf() && d.rgb_texture_matches(
            *h,
            t as int,
        ),
        _ => em.texture is None,
    }
}

impl Emissive {
    /// The default emission: no texture and a zero factor.
    pub open spec fn default_spec() -> Emissive {
        Emissive { texture: None, factor: Vec3 { x: 0, y: 0, z: 0 } }
    }

    /// Loads the emissive parameters of `desc` through the shared caches
    /// of `data`.
    pub(crate) fn load(desc: &MaterialDesc, data: &mut GltfData) -> (r: Result<
        Emissive,
        LoadError,
    >)
        requires
            old(data).wf(),
        ensures
            final(data).wf(),
            final(data).same_doc(*old(data)),
            final(data).materials == old(data).materials,
            (r is Ok) == (old(data).load_textures ==> (desc.emissive_texture matches Some(t)
                ==> old(data).rgb_texture_ok(t as int))),
            r matches Ok(em) ==> emissive_matches(em, *final(data), *desc),
            r matches Err(e) ==> e == LoadError::TextureDecode,
    {
        if !data.load_textures {
            return Ok(Emissive { texture: None, factor: desc.emissive_factor });
        }
        match desc.emissive_texture {
            Some(t) => match data.load_rgb_image(t) {
                Ok(h) => Ok(Emissive { texture: Some(h), factor: desc.emissive_factor }),
                Err(e) => Err(e),
            },
            None => Ok(Emissive { texture: None, factor: desc.emissive_factor }),
        }
    }
}

impl Default for Emissive {
    /// No texture and a zero factor.
    fn default() -> (r: Emissive)
        ensures
            r == Emissive::default_spec(),
    {
        Emissive { texture: None, factor: Vec3 { x: 0, y: 0, z: 0 } }
    }
}

} // verus!
