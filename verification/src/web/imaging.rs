//! The boundary to the `image` crate: the types that pass through the service
//! unopened, and the contracts that the service relies on for decoding,
//! resizing and encoding. Nothing in this file is proved.

use image::imageops::FilterType;
use image::DynamicImage;
use image::GenericImageView;
use image::ImageError;
use image::ImageFormat;
use std::io::Cursor;
use vstd::prelude::*;

verus! {

/// `image::DynamicImage`, a decoded image. It passes through the service
/// unopened: only its size and its WebP file are spoken of, by name.
#[verifier::external_type_specification]
#[verifier::external_body]
pub struct ExDynamicImage(image::DynamicImage);

/// `image::ImageError`, why decoding or encoding failed. The service never
/// looks inside.
#[verifier::external_type_specification]
#[verifier::external_body]
pub struct ExImageError(image::ImageError);

/// `image::imageops::FilterType`, the resampling filters, with its variants
/// as the crate declares them.
#[verifier::external_type_specification]
pub struct ExFilterType(image::imageops::FilterType);

/// `image::ImageFormat`, the file formats, with its variants as the crate
/// declares them.
#[verifier::external_type_specification]
pub struct ExImageFormat(image::ImageFormat);

/// Width and height of an image, in pixels, as `GenericImageView::dimensions`
/// reports them.
pub uninterp spec fn image_size(image: DynamicImage) -> (u32, u32);

/// The file that the WebP encoder of the `image` crate writes for an image.
pub uninterp spec fn webp_encoded(image: DynamicImage) -> Seq<u8>;

/// Largest width and height that a WebP file can hold.
pub const WEBP_MAX_DIMENSION: u32 = 16384;

/// Whether an image of this size can be written as WebP: both sides are
/// between 1 and `WEBP_MAX_DIMENSION`.
pub open spec fn webp_accepts(size: (u32, u32)) -> bool {
    &&& 1 <= size.0 <= WEBP_MAX_DIMENSION
    &&& 1 <= size.1 <= WEBP_MAX_DIMENSION
}

/// Whether the buffers that resampling `source` to `target` allocates have a
/// length that a vector can have: the intermediate one, of the source's width
/// and the target's height, and the final one, each at 16 bytes per pixel at
/// most.
pub open spec fn resize_fits(source: (u32, u32), target: (u32, u32)) -> bool {
    &&& 16 * (source.0 * target.1) <= isize::MAX
    &&& 16 * (target.0 * target.1) <= isize::MAX
}

/// `image::load_from_memory` guesses the format from the first bytes and
/// decodes. Its outcome also depends on the decoders registered in the
/// process, so nothing is claimed of it.
pub assume_specification[ image::load_from_memory ](buffer: &[u8]) -> Result<DynamicImage, ImageError>;

/// `GenericImageView::dimensions` of a `DynamicImage` returns its width and
/// height, here given the name `image_size`.
pub assume_specification[ <DynamicImage as GenericImageView>::dimensions ](
    image: &DynamicImage,
) -> (size: (u32, u32))
    ensures
        size == image_size(*image),
;

/// `DynamicImage::resize_exact` resamples to exactly the width and height
/// asked for, whatever the filter and the source's proportions. It panics
/// where a buffer's length overflows, which `resize_fits` rules out; whether
/// the machine has the memory for a buffer of a length that fits is not the
/// contract's matter. The pixels come from floating-point arithmetic and are
/// left unstated.
pub assume_specification[ DynamicImage::resize_exact ](
    image: &DynamicImage,
    nwidth: u32,
    nheight: u32,
    filter: FilterType,
) -> (scaled: DynamicImage)
    requires
        resize_fits(image_size(*image), (nwidth, nheight)),
    ensures
        image_size(scaled) == (nwidth, nheight),
;

/// `DynamicImage::write_to` into a fresh in-memory buffer, stated for the
/// WebP encoder: it fails exactly when a side of the image is 0 or larger
/// than 16384, and otherwise yields the file named `webp_encoded`.
#[verifier::external_body]
pub(crate) fn write_to_vec(
    image: &DynamicImage,
    format: ImageFormat,
) -> (written: Result<Vec<u8>, ImageError>)
    requires
        format == ImageFormat::WebP,
    ensures
        written is Ok <==> webp_accepts(image_size(*image)),
        written matches Ok(bytes) ==> bytes@ == webp_encoded(*image),
{
    let mut bytes = Vec::new();
    image.write_to(&mut Cursor::new(&mut bytes), format).map(|_| bytes)
}

} // verus!
