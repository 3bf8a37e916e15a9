//! The image codec, as far as this library relies on it.
//!
//! Decoded images, resampling filters and codec errors belong to the `image`
//! crate and are carried through as opaque values. Nothing in this file is
//! proved: each function calls the codec and states what is taken on trust
//! from it.

use vstd::prelude::*;
use image::imageops::FilterType;
use image::{DynamicImage, GenericImageView, ImageError, ImageFormat};
use std::io::Cursor;
use crate::image_data::{fits_in_memory, shrink_is_safe, ImageEncoding};

verus! {

/// `image::DynamicImage`, a decoded image: opaque, carried through.
#[verifier::external_type_specification]
#[verifier::external_body]
pub struct ExDynamicImage(image::DynamicImage);

/// `image::imageops::FilterType`, the choice of resampling filter: opaque,
/// handed to the codec as the caller gave it.
#[verifier::external_type_specification]
#[verifier::external_body]
pub struct ExFilterType(image::imageops::FilterType);

/// `image::ImageError`, the codec's failure: opaque, read only for its text.
#[verifier::external_type_specification]
#[verifier::external_body]
pub struct ExImageError(image::ImageError);

/// Width and height of a decoded image, in pixels.
pub uninterp spec fn image_dimensions(img: DynamicImage) -> (u32, u32);

/// The bytes of an image in an encoding, if the codec can produce them.
pub uninterp spec fn encoded_image(img: DynamicImage, encoding: ImageEncoding) -> Option<Seq<u8>>;

/// The image scaled down to fit within a width and a height.
pub uninterp spec fn thumbnail_image(img: DynamicImage, max_width: u32, max_height: u32) -> DynamicImage;

/// Reads an image's size with `GenericImageView::dimensions`. Claimed of it:
/// the size is a property of the image alone.
#[verifier::external_body]
pub(crate) fn dimensions_of(img: &DynamicImage) -> (size: (u32, u32))
    ensures
        size == image_dimensions(*img),
{
    img.dimensions()
}

/// Copies an image with `DynamicImage::clone`. Claimed of it: the copy is
/// the same image.
#[verifier::external_body]
pub(crate) fn copy_of(img: &DynamicImage) -> (copy: DynamicImage)
    ensures
        copy == *img,
{
    img.clone()
}

/// Decodes a byte buffer with `image::load_from_memory`, which guesses the
/// encoding from the bytes. Nothing is claimed of it: the codec lets a
/// process register decoders of its own, so what the same bytes give can
/// change while the process runs.
#[verifier::external_body]
pub(crate) fn decode_image(bytes: &[u8]) -> (res: Result<DynamicImage, ImageError>) {
    image::load_from_memory(bytes)
}

/// Encodes an image with `DynamicImage::write_to` into a fresh buffer.
/// Claimed of it: whether it succeeds, and the bytes it writes, depend on
/// the image and the encoding alone.
#[verifier::external_body]
pub(crate) fn encode_image(img: &DynamicImage, encoding: ImageEncoding) -> (res: Result<
    Vec<u8>,
    ImageError,
>)
    ensures
        res is Ok <==> encoded_image(*img, encoding) is Some,
        res is Ok ==> encoded_image(*img, encoding) == Some(res->Ok_0@),
{
    let format = match encoding {
        ImageEncoding::Jpeg => ImageFormat::Jpeg,
        ImageEncoding::Png => ImageFormat::Png,
        ImageEncoding::Bitmap => ImageFormat::Bmp,
    };
    let mut bytes: Vec<u8> = Vec::new();
    img.write_to(&mut Cursor::new(&mut bytes), format)?;
    Ok(bytes)
}

/// Scales an image down with `DynamicImage::thumbnail`, keeping its aspect
/// ratio. It is called only to shrink an image that has pixels: one of the
/// bounds lies below the image's own size, so the codec allocates no more
/// than the image already holds. The codec averages each block of source
/// pixels that falls on one target pixel, and adds the block up in 32
/// bits: the blocks must be small enough for that sum, which
/// `shrink_is_safe` sees to. Claimed of it: the result depends on the
/// image and the bounds alone, has at least one pixel each way, and fits
/// within bounds that are at least one.
#[verifier::external_body]
pub(crate) fn shrink_to_fit(img: &DynamicImage, max_width: u32, max_height: u32) -> (out:
    DynamicImage)
    requires
        image_dimensions(*img).0 >= 1 && image_dimensions(*img).1 >= 1,
        max_width < image_dimensions(*img).0 || max_height < image_dimensions(*img).1,
        shrink_is_safe(image_dimensions(*img), max_width, max_height),
    ensures
        out == thumbnail_image(*img, max_width, max_height),
        image_dimensions(out).0 >= 1 && image_dimensions(out).1 >= 1,
        max_width >= 1 && max_height >= 1 ==> image_dimensions(out).0 <= max_width
            && image_dimensions(out).1 <= max_height,
{
    img.thumbnail(max_width, max_height)
}

/// Resamples an image with `DynamicImage::resize_exact`. The codec
/// allocates a buffer of the target size and one of the image's width by
/// the target height, and panics where either cannot be allocated, so both
/// must fit in memory. Claimed of it: the result has exactly the size
/// asked for. Nothing is claimed of its pixels.
#[verifier::external_body]
pub(crate) fn resample(img: &DynamicImage, width: u32, height: u32, filter: FilterType) -> (out:
    DynamicImage)
    requires
        fits_in_memory(width, height),
        fits_in_memory(image_dimensions(*img).0, height),
    ensures
        image_dimensions(out) == (width, height),
{
    img.resize_exact(width, height, filter)
}

/// Renders a codec error with its `Display` impl.
#[verifier::external_body]
pub(crate) fn describe(err: &ImageError) -> (text: String) {
    err.to_string()
}

} // verus!
