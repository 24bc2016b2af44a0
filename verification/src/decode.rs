//! Textures from PNG images.
//!
//! Reading a file is left to the caller; what is decoded here is the
//! content of the file. The PNG decoder itself is the `image` crate's and
//! is taken on trust; that its output holds three bytes for every pixel is
//! checked.

use crate::skybox::Skybox;
use crate::texture::Texture;
use vstd::prelude::*;

verus! {

/// The error of the `image` crate.
#[verifier::external_type_specification]
#[verifier::external_body]
pub struct ExImageError(image::ImageError);

/// Why bytes did not give a texture.
#[derive(Debug, Clone, Copy, PartialEq, Eq, Structural)]
pub enum TextureError {
    /// The bytes are not a PNG image that can be decoded.
    Undecodable,
    /// The data does not hold exactly three bytes for every pixel.
    Incomplete,
}

/// What the PNG decoder makes of the content of a file: the width and the
/// height of the image and its pixels as red, green and blue bytes, row by
/// row; or nothing, where it rejects the content.
pub uninterp spec fn png_decoded(bytes: Seq<u8>) -> Option<(u32, u32, Seq<u8>)>;

/// The `image` crate's `load_from_memory_with_format`, with the format
/// fixed to PNG, followed by `DynamicImage::to_rgb8` and handed back as the
/// buffer's `dimensions` and `into_raw`. The contract gives the result a
/// name and claims no more than that: decoding is a function of the bytes.
#[verifier::external_body]
fn decode_png(bytes: &[u8]) -> (result: Result<(u32, u32, Vec<u8>), image::ImageError>)
    ensures
        match result {
            Ok(decoded) => png_decoded(bytes@) == Some((decoded.0, decoded.1, decoded.2@)),
            Err(_) => png_decoded(bytes@) is None,
        },
{
    let rgb = image::load_from_memory_with_format(bytes, image::ImageFormat::Png)?.to_rgb8();
    let (width, height) = rgb.dimensions();
    Ok((width, height, rgb.into_raw()))
}

/// The error, if any, that the content of a file meets with.
pub open spec fn decode_error(bytes: Seq<u8>) -> Option<TextureError> {
    match png_decoded(bytes) {
        None => Some(TextureError::Undecodable),
        Some(decoded) => if decoded.2.len() == decoded.0 * decoded.1 * 3 {
            None
        } else {
            Some(TextureError::Incomplete)
        },
    }
}

/// The texture is the one that the content of the file decodes to.
pub open spec fn decodes_to(bytes: Seq<u8>, texture: Texture) -> bool {
    &&& decode_error(bytes) is None
    &&& png_decoded(bytes) == Some((texture.width, texture.height, texture.data@))
}

/// The first error among the six faces of a sky, in the order in which
/// they are decoded.
pub open spec fn first_error(
    px: Seq<u8>,
    nx: Seq<u8>,
    py: Seq<u8>,
    ny: Seq<u8>,
    pz: Seq<u8>,
    nz: Seq<u8>,
) -> Option<TextureError> {
    if decode_error(px) is Some {
        decode_error(px)
    } else if decode_error(nx) is Some {
        decode_error(nx)
    } else if decode_error(py) is Some {
        decode_error(py)
    } else if decode_error(ny) is Some {
        decode_error(ny)
    } else if decode_error(pz) is Some {
        decode_error(pz)
    } else {
        decode_error(nz)
    }
}

impl Texture {
    /// Makes a texture of raw pixel data, which must hold exactly three
    /// bytes for every pixel.
    pub fn from_rgb(width: u32, height: u32, data: Vec<u8>) -> (result: Result<
        Texture,
        TextureError,
    >)
        ensures
            match result {
                Ok(texture) => {
                    &&& data@.len() == width * height * 3
                    &&& texture.width == width
                    &&& texture.height == height
                    &&& texture.data@ == data@
                    &&& texture.wf()
                },
                Err(error) => error == TextureError::Incomplete && data@.len() != width * height
                    * 3,
            },
    {
        assert(width * height <= 0xFFFF_FFFF * 0xFFFF_FFFF) by (nonlinear_arith)
            requires
                0 <= width <= 0xFFFF_FFFF,
                0 <= height <= 0xFFFF_FFFF,
        ;
        let pixels: u128 = width as u128 * height as u128;
        if data.len() as u128 == pixels * 3 {
            Ok(Texture { width, height, data })
        } else {
            Err(TextureError::Incomplete)
        }
    }

    /// Decodes the content of a PNG file into a texture.
    pub fn decode(bytes: &[u8]) -> (result: Result<Texture, TextureError>)
        ensures
            match result {
                Ok(texture) => decodes_to(bytes@, texture) && texture.wf(),
                Err(error) => decode_error(bytes@) == Some(error),
            },
    {
        match decode_png(bytes) {
            Ok(decoded) => Self::from_rgb(decoded.0, decoded.1, decoded.2),
            Err(_) => Err(TextureError::Undecodable),
        }
    }
}

impl Skybox {
    /// Decodes the six faces of a sky from the contents of six PNG files.
    /// The first face that fails gives the error.
    pub fn decode(
        px: &[u8],
        nx: &[u8],
        py: &[u8],
        ny: &[u8],
        pz: &[u8],
        nz: &[u8],
    ) -> (result: Result<Skybox, TextureError>)
        ensures
            match result {
                Ok(sky) => {
                    &&& decodes_to(px@, sky.px)
                    &&& decodes_to(nx@, sky.nx)
                    &&& decodes_to(py@, sky.py)
                    &&& decodes_to(ny@, sky.ny)
                    &&& decodes_to(pz@, sky.pz)
                    &&& decodes_to(nz@, sky.nz)
                },
                Err(error) => first_error(px@, nx@, py@, ny@, pz@, nz@) == Some(error),
            },
    {
        let px = match Texture::decode(px) {
            Ok(texture) => texture,
            Err(error) => return Err(error),
        };
        let nx = match Texture::decode(nx) {
            Ok(texture) => texture,
            Err(error) => return Err(error),
        };
        let py = match Texture::decode(py) {
            Ok(texture) => texture,
            Err(error) => return Err(error),
        };
        let ny = match Texture::decode(ny) {
            Ok(texture) => texture,
            Err(error) => return Err(error),
        };
        let pz = match Texture::decode(pz) {
            Ok(texture) => texture,
            Err(error) => return Err(error),
        };
        let nz = match Texture::decode(nz) {
            Ok(texture) => texture,
            Err(error) => return Err(error),
        };
        Ok(Skybox { px, nx, py, ny, pz, nz })
    }
}

} // verus!
