//! A decoded image that knows its size, and the buffers it encodes to.

use vstd::prelude::*;
use image::imageops::FilterType;
use image::{DynamicImage, ImageError};
use crate::codec::{
    copy_of, decode_image, describe, dimensions_of, encode_image, encoded_image,
    image_dimensions, resample, shrink_to_fit, thumbnail_image,
};
use crate::error::ClipboardError;

verus! {

/// An image, or the empty sentinel that stands for "no image".
///
/// The recorded width and height are those of the pixels held; the empty
/// sentinel has size zero by zero.
#[derive(Debug)]
pub struct RustImageData {
    width: u32,
    height: u32,
    data: Option<DynamicImage>,
}

/// An image encoded as bytes in one target encoding.
#[derive(Debug)]
pub struct RustImageBuffer(Vec<u8>);

/// The encodings that an image can be turned into.
#[derive(Clone, Copy, PartialEq, Eq, Structural, Debug)]
pub enum ImageEncoding {
    Jpeg,
    Png,
    Bitmap,
}

/// Whether a pixel buffer of this size, at the codec's widest pixel of
/// sixteen bytes, stays within what one allocation may hold.
pub open spec fn fits_in_memory(width: u32, height: u32) -> bool {
    16 * (width as int) * (height as int) <= isize::MAX as int
}

/// Decides whether a pixel buffer of a width and a height fits in memory.
pub fn buffer_fits(width: u32, height: u32) -> (fits: bool)
    ensures
        fits == fits_in_memory(width, height),
{
    assert((width as u64) * (height as u64) <= 0xffff_ffff_0000_0000u64) by (nonlinear_arith)
        requires
            width <= 0xffff_ffffu32,
            height <= 0xffff_ffffu32,
    ;
    let pixels: u64 = (width as u64) * (height as u64);
    let limit: u64 = (isize::MAX as u64) / 16;
    assert(16 * (width as int) * (height as int) == 16 * ((width as int) * (height as int)))
        by (nonlinear_arith);
    pixels <= limit
}

/// The most pixels of one block that the codec can add up in 32 bits,
/// whatever the depth of their samples.
pub const MAX_BLOCK_PIXELS: u64 = 65536;

/// The longest side of an image that the codec's block arithmetic places
/// exactly.
pub const MAX_SHRUNK_SIDE: u32 = 0x100_0000;

/// How many times smaller than the image a bound may be, each way.
pub const MAX_SHRINK: u64 = 100;

/// Whether the codec can shrink an image of this size into `max_width` by
/// `max_height`. To shrink, it averages the block of source pixels that
/// falls on each target pixel. Into a bound of zero the whole image is one
/// block, and must be no more than `MAX_BLOCK_PIXELS`. Else no side is
/// over `MAX_SHRUNK_SIDE` or over `MAX_SHRINK` times its bound, which
/// keeps every block within about twice `MAX_SHRINK` pixels each way.
pub open spec fn shrink_is_safe(size: (u32, u32), max_width: u32, max_height: u32) -> bool {
    if max_width == 0 || max_height == 0 {
        (size.0 as int) * (size.1 as int) <= MAX_BLOCK_PIXELS as int
    } else {
        &&& size.0 <= MAX_SHRUNK_SIDE
        &&& size.1 <= MAX_SHRUNK_SIDE
        &&& (size.0 as int) <= (MAX_SHRINK as int) * (max_width as int)
        &&& (size.1 as int) <= (MAX_SHRINK as int) * (max_height as int)
    }
}

/// Decides whether the codec can shrink an image of a size into bounds.
pub fn shrink_fits(size: (u32, u32), max_width: u32, max_height: u32) -> (fits: bool)
    ensures
        fits == shrink_is_safe(size, max_width, max_height),
{
    assert((size.0 as u64) * (size.1 as u64) <= 0xffff_ffff_0000_0000u64) by (nonlinear_arith)
        requires
            size.0 <= 0xffff_ffffu32,
            size.1 <= 0xffff_ffffu32,
    ;
    if max_width == 0 || max_height == 0 {
        (size.0 as u64) * (size.1 as u64) <= MAX_BLOCK_PIXELS
    } else {
        size.0 <= MAX_SHRUNK_SIDE && size.1 <= MAX_SHRUNK_SIDE && (size.0 as u64) <= MAX_SHRINK * (
        max_width as u64) && (size.1 as u64) <= MAX_SHRINK * (max_height as u64)
    }
}

/// Whether an image of this size is left as it is by scaling into
/// `max_width` by `max_height`: it fits already, or it has no pixels.
pub open spec fn already_fits(size: (u32, u32), max_width: u32, max_height: u32) -> bool {
    (max_width >= size.0 && max_height >= size.1) || size.0 == 0 || size.1 == 0
}

/// What scaling `img` into `max_width` by `max_height` yields: the image
/// itself where it is left as it is, else the codec's thumbnail of it.
pub open spec fn fitted_image(img: DynamicImage, max_width: u32, max_height: u32) -> DynamicImage {
    if already_fits(image_dimensions(img), max_width, max_height) {
        img
    } else {
        thumbnail_image(img, max_width, max_height)
    }
}

/// The operations of an image value. None of them changes the value it is
/// called on: a transformation returns a new image.
pub trait RustImage: Sized {
    /// The pixels held, if any.
    spec fn spec_image(&self) -> Option<DynamicImage>;

    /// The recorded width and height.
    spec fn spec_size(&self) -> (u32, u32);

    /// The empty image: no pixels, size zero by zero.
    fn empty() -> (img: Self)
        ensures
            img.spec_image() is None,
            img.spec_size() == (0u32, 0u32),
    ;

    /// Whether the image is the empty one.
    fn is_empty(&self) -> (empty: bool)
        ensures
            empty == (self.spec_image() is None),
    ;

    /// Decodes an image from bytes. Whether the bytes decode is the
    /// codec's to say: what comes back is an image that holds pixels, with
    /// their size, or a decode error.
    fn from_bytes(bytes: &[u8]) -> (res: Result<Self, ClipboardError>)
        ensures
            match res {
                Ok(img) => img.spec_image() is Some && img.spec_size() == image_dimensions(
                    img.spec_image()->Some_0,
                ),
                Err(err) => err is Decode,
            },
    ;

    /// Wraps a decoded image and records its size.
    fn from_dynamic_image(image: DynamicImage) -> (img: Self)
        ensures
            img.spec_image() == Some(image),
            img.spec_size() == image_dimensions(image),
    ;

    /// Width and height of the image; zero by zero for the empty image.
    fn get_size(&self) -> (size: (u32, u32))
        ensures
            size == self.spec_size(),
            self.spec_image() is None ==> size == (0u32, 0u32),
            self.spec_image() is Some ==> size == image_dimensions(self.spec_image()->Some_0),
    ;

    /// Scales the image down, keeping its aspect ratio, so that it fits
    /// within a width and a height. An image that already fits, or that
    /// has no pixels, is returned as it is: nothing is ever enlarged. Fails
    /// on the empty image. Where the image is shrunk, it must not be
    /// shrunk further than the codec can average.
    fn thumbnail(&self, width: u32, height: u32) -> (res: Result<Self, ClipboardError>)
        requires
            self.spec_image() is Some && !already_fits(self.spec_size(), width, height)
                ==> shrink_is_safe(self.spec_size(), width, height),
        ensures
            match self.spec_image() {
                None => res == Err::<Self, ClipboardError>(ClipboardError::EmptyContent),
                Some(img) => {
                    &&& res is Ok
                    &&& res->Ok_0.spec_image() == Some(fitted_image(img, width, height))
                    &&& res->Ok_0.spec_size() == image_dimensions(fitted_image(img, width, height))
                    &&& already_fits(self.spec_size(), width, height) ==> res->Ok_0.spec_size()
                        == self.spec_size()
                    &&& width >= 1 && height >= 1 && self.spec_size().0 >= 1 && self.spec_size().1
                        >= 1 ==> res->Ok_0.spec_size().0 <= width && res->Ok_0.spec_size().1
                        <= height
                    &&& self.spec_size().0 >= 1 && self.spec_size().1 >= 1
                        ==> res->Ok_0.spec_size().0 >= 1 && res->Ok_0.spec_size().1 >= 1
                },
            },
    ;

    /// Resizes the image to exactly a width and a height, whatever its
    /// aspect ratio, with the given resampling filter: the result holds
    /// pixels of that size. Fails on the empty image. The target buffer
    /// must fit in memory.
    fn resize(&self, width: u32, height: u32, filter: FilterType) -> (res: Result<
        Self,
        ClipboardError,
    >)
        requires
            self.spec_image() is Some ==> fits_in_memory(width, height) && fits_in_memory(
                self.spec_size().0,
                height,
            ),
        ensures
            match self.spec_image() {
                None => res == Err::<Self, ClipboardError>(ClipboardError::EmptyContent),
                Some(_) => {
                    &&& res is Ok
                    &&& res->Ok_0.spec_image() is Some
                    &&& res->Ok_0.spec_size() == (width, height)
                },
            },
    ;

    /// Encodes the image as JPEG. Fails on the empty image.
    fn to_jpeg(&self) -> (res: Result<RustImageBuffer, ClipboardError>)
        ensures
            match self.spec_image() {
                None => res == Err::<RustImageBuffer, ClipboardError>(ClipboardError::EmptyContent),
                Some(img) => match encoded_image(img, ImageEncoding::Jpeg) {
                    Some(bytes) => res is Ok && res->Ok_0@ == bytes,
                    None => res is Err && res->Err_0 is Encode,
                },
            },
    ;

    /// Encodes the image as PNG. Fails on the empty image.
    fn to_png(&self) -> (res: Result<RustImageBuffer, ClipboardError>)
        ensures
            match self.spec_image() {
                None => res == Err::<RustImageBuffer, ClipboardError>(ClipboardError::EmptyContent),
                Some(img) => match encoded_image(img, ImageEncoding::Png) {
                    Some(bytes) => res is Ok && res->Ok_0@ == bytes,
                    None => res is Err && res->Err_0 is Encode,
                },
            },
    ;

    /// Encodes the image as a bitmap. Fails on the empty image.
    fn to_bitmap(&self) -> (res: Result<RustImageBuffer, ClipboardError>)
        ensures
            match self.spec_image() {
                None => res == Err::<RustImageBuffer, ClipboardError>(ClipboardError::EmptyContent),
                Some(img) => match encoded_image(img, ImageEncoding::Bitmap) {
                    Some(bytes) => res is Ok && res->Ok_0@ == bytes,
                    None => res is Err && res->Err_0 is Encode,
                },
            },
    ;
}

impl RustImageData {
    #[verifier::type_invariant]
    spec fn size_matches_pixels(&self) -> bool {
        match self.data {
            Some(img) => (self.width, self.height) == image_dimensions(img),
            None => self.width == 0 && self.height == 0,
        }
    }

    /// The pixels that an operation works on: those held, or
    /// `EmptyContent` for the empty image.
    pub fn require_image(&self) -> (res: Result<&DynamicImage, ClipboardError>)
        ensures
            match self.spec_image() {
                Some(img) => res is Ok && *res->Ok_0 == img,
                None => res == Err::<&DynamicImage, ClipboardError>(ClipboardError::EmptyContent),
            },
    {
        match &self.data {
            Some(image) => Ok(image),
            None => Err(ClipboardError::EmptyContent),
        }
    }

    /// The pixels held, for code that hands them to the codec itself.
    pub fn as_dynamic_image(&self) -> (img: Option<&DynamicImage>)
        ensures
            img is Some <==> self.spec_image() is Some,
            img is Some ==> Some(*img->Some_0) == self.spec_image(),
    {
        self.data.as_ref()
    }

    /// Turns the outcome of decoding into an image value: the decoded
    /// pixels with their size, or a decode error with the codec's diagnostic.
    pub fn from_decoded(decoded: Result<DynamicImage, ImageError>) -> (res: Result<
        RustImageData,
        ClipboardError,
    >)
        ensures
            match decoded {
                Ok(img) => res is Ok && res->Ok_0.spec_image() == Some(img)
                    && res->Ok_0.spec_size() == image_dimensions(img),
                Err(_) => res is Err && res->Err_0 is Decode,
            },
    {
        match decoded {
            Ok(img) => Ok(Self::from_dynamic_image(img)),
            Err(e) => Err(ClipboardError::Decode(describe(&e))),
        }
    }

    /// Turns the outcome of encoding into a buffer: the bytes as they are,
    /// or an encode error with the codec's diagnostic.
    pub fn from_encoded(encoded: Result<Vec<u8>, ImageError>) -> (res: Result<
        RustImageBuffer,
        ClipboardError,
    >)
        ensures
            match encoded {
                Ok(bytes) => res is Ok && res->Ok_0@ == bytes@,
                Err(_) => res is Err && res->Err_0 is Encode,
            },
    {
        match encoded {
            Ok(bytes) => Ok(RustImageBuffer(bytes)),
            Err(e) => Err(ClipboardError::Encode(describe(&e))),
        }
    }

    /// Scales the image down as `thumbnail` does where the codec can
    /// shrink it that far, and returns `None`, with nothing done, where it
    /// cannot.
    pub fn thumbnail_if_fits(&self, width: u32, height: u32) -> (res: Option<
        Result<RustImageData, ClipboardError>,
    >)
        ensures
            match self.spec_image() {
                None => res == Some(
                    Err::<RustImageData, ClipboardError>(ClipboardError::EmptyContent),
                ),
                Some(img) => if already_fits(self.spec_size(), width, height) || shrink_is_safe(
                    self.spec_size(),
                    width,
                    height,
                ) {
                    &&& res is Some
                    &&& res->Some_0 is Ok
                    &&& res->Some_0->Ok_0.spec_image() == Some(fitted_image(img, width, height))
                    &&& res->Some_0->Ok_0.spec_size() == image_dimensions(
                        fitted_image(img, width, height),
                    )
                    &&& already_fits(self.spec_size(), width, height)
                        ==> res->Some_0->Ok_0.spec_size() == self.spec_size()
                    &&& width >= 1 && height >= 1 && self.spec_size().0 >= 1 && self.spec_size().1
                        >= 1 ==> res->Some_0->Ok_0.spec_size().0 <= width
                        && res->Some_0->Ok_0.spec_size().1 <= height
                    &&& self.spec_size().0 >= 1 && self.spec_size().1 >= 1
                        ==> res->Some_0->Ok_0.spec_size().0 >= 1 && res->Some_0->Ok_0.spec_size().1
                        >= 1
                } else {
                    res is None
                },
            },
    {
        if self.is_empty() || (width >= self.width && height >= self.height) || self.width == 0
            || self.height == 0 || shrink_fits((self.width, self.height), width, height) {
            Some(self.thumbnail(width, height))
        } else {
            None
        }
    }

    /// Resizes the image where the buffers that resizing needs fit in
    /// memory, and returns `None`, with nothing done, where they do not.
    pub fn resize_if_fits(&self, width: u32, height: u32, filter: FilterType) -> (res: Option<
        Result<RustImageData, ClipboardError>,
    >)
        ensures
            match self.spec_image() {
                None => res == Some(
                    Err::<RustImageData, ClipboardError>(ClipboardError::EmptyContent),
                ),
                Some(_) => if fits_in_memory(width, height) && fits_in_memory(
                    self.spec_size().0,
                    height,
                ) {
                    &&& res is Some
                    &&& res->Some_0 is Ok
                    &&& res->Some_0->Ok_0.spec_image() is Some
                    &&& res->Some_0->Ok_0.spec_size() == (width, height)
                } else {
                    res is None
                },
            },
    {
        if self.is_empty() || (buffer_fits(width, height) && buffer_fits(self.width, height)) {
            Some(self.resize(width, height, filter))
        } else {
            None
        }
    }

    /// Encodes the image: the codec's bytes for it, an encode error where
    /// the codec has none, and `EmptyContent` for the empty image.
    pub fn encode(&self, encoding: ImageEncoding) -> (res: Result<RustImageBuffer, ClipboardError>)
        ensures
            match self.spec_image() {
                None => res == Err::<RustImageBuffer, ClipboardError>(ClipboardError::EmptyContent),
                Some(img) => match encoded_image(img, encoding) {
                    Some(bytes) => res is Ok && res->Ok_0@ == bytes,
                    None => res is Err && res->Err_0 is Encode,
                },
            },
    {
        match &self.data {
            Some(image) => Self::from_encoded(encode_image(image, encoding)),
            None => Err(ClipboardError::EmptyContent),
        }
    }
}

impl RustImage for RustImageData {
    closed spec fn spec_image(&self) -> Option<DynamicImage> {
        self.data
    }

    closed spec fn spec_size(&self) -> (u32, u32) {
        (self.width, self.height)
    }

    fn empty() -> (img: Self)
    {
        RustImageData { width: 0, height: 0, data: None }
    }

    fn is_empty(&self) -> (empty: bool)
    {
        self.data.is_none()
    }

    fn from_bytes(bytes: &[u8]) -> (res: Result<Self, ClipboardError>)
    {
        Self::from_decoded(decode_image(bytes))
    }

    fn from_dynamic_image(image: DynamicImage) -> (img: Self)
    {
        let (width, height) = dimensions_of(&image);
        RustImageData { width, height, data: Some(image) }
    }

    fn get_size(&self) -> (size: (u32, u32))
    {
        proof {
            use_type_invariant(self);
        }
        (self.width, self.height)
    }

    fn thumbnail(&self, width: u32, height: u32) -> (res: Result<Self, ClipboardError>)
    {
        proof {
            use_type_invariant(self);
        }
        match &self.data {
            Some(image) => {
                if (width >= self.width && height >= self.height) || self.width == 0
                    || self.height == 0 {
                    Ok(Self::from_dynamic_image(copy_of(image)))
                } else {
                    Ok(Self::from_dynamic_image(shrink_to_fit(image, width, height)))
                }
            },
            None => Err(ClipboardError::EmptyContent),
        }
    }

    fn resize(&self, width: u32, height: u32, filter: FilterType) -> (res: Result<
        Self,
        ClipboardError,
    >)
    {
        proof {
            use_type_invariant(self);
        }
        match &self.data {
            Some(image) => Ok(Self::from_dynamic_image(resample(image, width, height, filter))),
            None => Err(ClipboardError::EmptyContent),
        }
    }

    fn to_jpeg(&self) -> (res: Result<RustImageBuffer, ClipboardError>)
    {
        self.encode(ImageEncoding::Jpeg)
    }

    fn to_png(&self) -> (res: Result<RustImageBuffer, ClipboardError>)
    {
        self.encode(ImageEncoding::Png)
    }

    fn to_bitmap(&self) -> (res: Result<RustImageBuffer, ClipboardError>)
    {
        self.encode(ImageEncoding::Bitmap)
    }
}

impl View for RustImageBuffer {
    type V = Seq<u8>;

    closed spec fn view(&self) -> Seq<u8> {
        self.0@
    }
}

impl RustImageBuffer {
    /// The encoded bytes.
    pub fn get_bytes(&self) -> (bytes: &[u8])
        ensures
            bytes@ == self@,
    {
        self.0.as_slice()
    }
}

} // verus!
