//! The sky: six square textures, one for each face of a cube around the
//! scene.

use crate::axis::{Axis, Face};
use crate::single::{greater, gt};
use crate::texture::{Pattern, Texture};
use vstd::prelude::*;

verus! {

/// Without a sky box the sky has two bands, and a direction looks at the
/// upper one if its height is above this. The pattern of a tenth.
pub const HORIZON: u32 = 0x3DCC_CCCD;

/// Whether a direction of the given height looks at the upper band of a
/// sky without a sky box.
pub fn in_upper_band(height: u32) -> (upper: bool)
    ensures
        upper == gt(height, HORIZON),
{
    greater(height, HORIZON)
}

/// Side length of a procedural sky face.
pub const SKY_SIZE: usize = 256;

#[derive(Debug, Clone)]
pub struct Skybox {
    /// The face towards positive x, and so on.
    pub px: Texture,
    pub nx: Texture,
    pub py: Texture,
    pub ny: Texture,
    pub pz: Texture,
    pub nz: Texture,
}

/// The gradient of the face overhead.
pub open spec fn sky_top() -> Pattern {
    Pattern::Gradient { top: (60u8, 130u8, 255u8), bottom: (170u8, 210u8, 255u8) }
}

/// The gradient of the face underfoot.
pub open spec fn sky_bottom() -> Pattern {
    Pattern::Gradient { top: (80u8, 150u8, 255u8), bottom: (180u8, 220u8, 255u8) }
}

/// The gradient of the four faces around.
pub open spec fn sky_side() -> Pattern {
    Pattern::Gradient { top: (70u8, 140u8, 255u8), bottom: (185u8, 220u8, 255u8) }
}

impl Skybox {
    /// The sky is the procedural one.
    pub open spec fn is_procedural(&self) -> bool {
        &&& self.px.shows(sky_side(), SKY_SIZE as int)
        &&& self.nx.shows(sky_side(), SKY_SIZE as int)
        &&& self.py.shows(sky_top(), SKY_SIZE as int)
        &&& self.ny.shows(sky_bottom(), SKY_SIZE as int)
        &&& self.pz.shows(sky_side(), SKY_SIZE as int)
        &&& self.nz.shows(sky_side(), SKY_SIZE as int)
    }

    pub open spec fn spec_face(&self, face: Face) -> Texture {
        match face.axis {
            Axis::X => if face.positive {
                self.px
            } else {
                self.nx
            },
            Axis::Y => if face.positive {
                self.py
            } else {
                self.ny
            },
            Axis::Z => if face.positive {
                self.pz
            } else {
                self.nz
            },
        }
    }

    /// The texture of a face.
    pub fn face(&self, face: Face) -> (texture: &Texture)
        ensures
            *texture == self.spec_face(face),
    {
        match face.axis {
            Axis::X => if face.positive {
                &self.px
            } else {
                &self.nx
            },
            Axis::Y => if face.positive {
                &self.py
            } else {
                &self.ny
            },
            Axis::Z => if face.positive {
                &self.pz
            } else {
                &self.nz
            },
        }
    }

    /// Builds the sky without any image file: every face a vertical
    /// gradient of blues, lighter towards its last row.
    pub fn create_procedural_sky() -> (sky: Skybox)
        ensures
            sky.is_procedural(),
    {
        Skybox {
            px: Self::create_sky_texture_right(),
            nx: Self::create_sky_texture_left(),
            py: Self::create_sky_texture_top(),
            ny: Self::create_sky_texture_bottom(),
            pz: Self::create_sky_texture_front(),
            nz: Self::create_sky_texture_back(),
        }
    }

    /// The sky that was loaded, or the procedural one where loading
    /// failed.
    pub fn or_procedural(loaded: Option<Skybox>) -> (sky: Skybox)
        ensures
            match loaded {
                Some(images) => sky == images,
                None => sky.is_procedural(),
            },
    {
        match loaded {
            Some(images) => images,
            None => Self::create_procedural_sky(),
        }
    }

    /// A square texture whose rows fade from `top` to `bottom`.
    fn make_vertical_gradient(size: usize, top: (u8, u8, u8), bottom: (u8, u8, u8)) -> (texture:
        Texture)
        requires
            2 <= size <= 4096,
        ensures
            texture.shows(Pattern::Gradient { top, bottom }, size as int),
    {
        Texture::paint(Pattern::Gradient { top, bottom }, size as u32)
    }

    fn create_sky_texture_top() -> (texture: Texture)
        ensures
            texture.shows(sky_top(), SKY_SIZE as int),
    {
        Self::make_vertical_gradient(SKY_SIZE, (60, 130, 255), (170, 210, 255))
    }

    fn create_sky_texture_bottom() -> (texture: Texture)
        ensures
            texture.shows(sky_bottom(), SKY_SIZE as int),
    {
        Self::make_vertical_gradient(SKY_SIZE, (80, 150, 255), (180, 220, 255))
    }

    fn create_sky_texture_front() -> (texture: Texture)
        ensures
            texture.shows(sky_side(), SKY_SIZE as int),
    {
        Self::make_vertical_gradient(SKY_SIZE, (70, 140, 255), (185, 220, 255))
    }

    fn create_sky_texture_back() -> (texture: Texture)
        ensures
            texture.shows(sky_side(), SKY_SIZE as int),
    {
        Self::make_vertical_gradient(SKY_SIZE, (70, 140, 255), (185, 220, 255))
    }

    fn create_sky_texture_left() -> (texture: Texture)
        ensures
            texture.shows(sky_side(), SKY_SIZE as int),
    {
        Self::make_vertical_gradient(SKY_SIZE, (70, 140, 255), (185, 220, 255))
    }

    fn create_sky_texture_right() -> (texture: Texture)
        ensures
            texture.shows(sky_side(), SKY_SIZE as int),
    {
        Self::make_vertical_gradient(SKY_SIZE, (70, 140, 255), (185, 220, 255))
    }
}

} // verus!
