//! The size of the texture that holds a decoded image.

use image::GenericImageView;
use vstd::prelude::*;

verus! {

/// The error type of the crate `image`. Nothing is known of a value of it.
#[verifier::external_type_specification]
#[verifier::external_body]
pub struct ExImageError(image::ImageError);

/// Width and height of the image that `image::load_from_memory` decodes from
/// `bytes`, or `None` where it reports an error.
pub uninterp spec fn decoded_dimensions(bytes: Seq<u8>) -> Option<(u32, u32)>;

/// `image::load_from_memory` of the crate `image`, which guesses the format of
/// the bytes and decodes them, and of what it decodes the
/// `GenericImageView::dimensions`. Taken on trust: the outcome is a function
/// of the bytes alone, named [`decoded_dimensions`]; an error of the decoder
/// is handed on as it is.
#[verifier::external_body]
fn decode_dimensions(bytes: &[u8]) -> (outcome: Result<(u32, u32), image::ImageError>)
    ensures
        match outcome {
            Ok(dimensions) => decoded_dimensions(bytes@) == Some(dimensions),
            Err(_) => decoded_dimensions(bytes@) is None,
        },
{
    match image::load_from_memory(bytes) {
        Ok(decoded) => Ok(decoded.dimensions()),
        Err(error) => Err(error),
    }
}

/// Why no texture size could be given.
#[derive(Debug)]
pub enum TextureError {
    /// The bytes are no image that the decoder reads.
    Decode(image::ImageError),
}

/// The extent of a texture.
#[derive(Clone, Copy, Debug, PartialEq, Eq, Structural)]
pub struct Extent3d {
    /// Width in texels.
    pub width: u32,
    /// Height in texels.
    pub height: u32,
    /// Depth, or the number of array layers.
    pub depth_or_array_layers: u32,
}

impl Extent3d {
    /// The extent of a single-layer texture for an image of the given width
    /// and height.
    pub open spec fn layer(dimensions: (u32, u32)) -> Extent3d {
        Extent3d { width: dimensions.0, height: dimensions.1, depth_or_array_layers: 1 }
    }

    /// The extent of a single-layer texture that holds an image of the given
    /// width and height.
    pub fn for_image(dimensions: (u32, u32)) -> (extent: Self)
        ensures
            extent == Extent3d::layer(dimensions),
    {
        Extent3d { width: dimensions.0, height: dimensions.1, depth_or_array_layers: 1 }
    }
}

/// The extent of the texture for the image encoded in `bytes`: one layer of
/// the image's width and height. Fails exactly where the decoder does.
pub fn texture_size(bytes: &[u8]) -> (outcome: Result<Extent3d, TextureError>)
    ensures
        match outcome {
            Ok(extent) => decoded_dimensions(bytes@) matches Some(dimensions) && extent
                == Extent3d::layer(dimensions),
            Err(_) => decoded_dimensions(bytes@) is None,
        },
{
    match decode_dimensions(bytes) {
        Ok(dimensions) => Ok(Extent3d::for_image(dimensions)),
        Err(error) => Err(TextureError::Decode(error)),
    }
}

} // verus!
