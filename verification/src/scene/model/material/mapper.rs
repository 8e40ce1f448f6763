//! Texture-coordinate mapping parameters.

use vstd::prelude::*;

use crate::vector::Vec2;
use crate::F32_ONE_BITS;

verus! {

/// Define an offset and a scale to apply to texture coordinates.
#[derive(Clone, Copy, Debug, PartialEq, Eq, Structural)]
pub struct Mapper {
    /// Offset of texture coordinates.
    pub offset: Vec2,
    /// Scale of texture coordinates.
    pub scale: Vec2,
}

impl Mapper {
    /// The default mapper: no offset and unit scale.
    pub open spec fn default_spec() -> Mapper {
        Mapper {
            offset: Vec2 { x: 0, y: 0 },
            scale: Vec2 { x: F32_ONE_BITS, y: F32_ONE_BITS },
        }
    }
}

impl Default for Mapper {
    /// No offset and unit scale.
    fn default() -> (r: Mapper)
        ensures
            r == Mapper::default_spec(),
    {
        Mapper {
            offset: Vec2 { x: 0, y: 0 },
            scale: Vec2 { x: F32_ONE_BITS, y: F32_ONE_BITS },
        }
    }
}

} // verus!
