//! Occlusion maps.

use std::sync::Arc;
use vstd::prelude::*;

use super::mapper::Mapper;
use crate::document::MaterialDesc;
use crate::texture::GrayTexture;
use crate::utils::GltfData;
use crate::LoadError;

verus! {

/// Defines the occlusion texture of a material.
#[derive(Clone, Debug)]
pub struct Occlusion {
    /// The `texture` defines areas of the surface that are occluded from
    /// light, and thus rendered darker.
    pub texture: Arc<GrayTexture>,

    /// The occlusion strength to be applied to the texture value.
    pub factor: u32,

    /// Mapper to apply a scale and offset on textures.
    pub mapper: Mapper,
}

/// True when `occ` is the occlusion map `desc` references — the red
/// channel of the named texture's RGBA decode with the strength scalar
/// copied — or is absent exactly when `desc` references none or `d` skips
/// textures.
pub open spec fn occlusion_matches(occ: Option<Occlusion>, d: GltfData, desc: MaterialDesc) -> bool {
    match (d.load_textures, desc.occlusion_texture) {
        (true, Some(tf)) => occ matches Some(o) && (*o.texture).wf() && d.gray_texture_matches(
            *o.texture,
            tf.texture as int,
            0,
        ) && o.factor == tf.factor && o.mapper == Mapper::default_spec(),
        _ => occ is None,
    }
}

/// The occlusion map depends on the document tables only, so it carries
/// over between states that share them.
pub proof fn lemma_occlusion_matches_same_doc(
    occ: Option<Occlusion>,
    d1: GltfData,
    d2: GltfData,
    desc: MaterialDesc,
)
    requires
        occlusion_matches(occ, d1, desc),
        d1.same_doc(d2),
    ensures
        occlusion_matches(occ, d2, desc),
{
    if d1.load_textures {
        if let Some(tf) = desc.occlusion_texture {
            d1.lemma_texture_bytes_same_doc(d2, tf.texture as int);
        }
    }
}

impl Occlusion {
    /// Loads the occlusion map `desc` references, if any, through the
    /// shared caches of `data`: the occlusion value is the red channel of
    /// the referenced texture.
    pub(crate) fn load(desc: &MaterialDesc, data: &mut GltfData) -> (r: Result<
        Option<Occlusion>,
        LoadError,
    >)
        requires
            old(data).wf(),
        ensures
            final(data).wf(),
            final(data).same_doc(*old(data)),
            final(data).materials == old(data).materials,
            (r is Ok) == (old(data).load_textures ==> (desc.occlusion_texture matches Some(tf)
                ==> old(data).rgba_texture_ok(tf.texture as int))),
            r matches Ok(occ) ==> occlusion_matches(occ, *final(data), *desc),
            r matches Err(e) ==> e == LoadError::TextureDecode,
    {
        if !data.load_textures {
            return Ok(None);
        }
        match desc.occlusion_texture {
            Some(tf) => match data.load_gray_image(tf.texture, 0) {
                Ok(h) => Ok(
                    Some(Occlusion { texture: h, factor: tf.factor, mapper: Mapper::default() }),
                ),
                Err(e) => Err(e),
            },
            None => Ok(None),
        }
    }
}

} // verus!
