use clipboard_rs::image_data::{buffer_fits, shrink_fits};
use clipboard_rs::{ClipboardError, FilterType, ImageEncoding, RustImage, RustImageData};
use image::{DynamicImage, ImageBuffer, Luma, Rgb, RgbImage};

fn gradient(width: u32, height: u32) -> DynamicImage {
    let mut pixels = RgbImage::new(width, height);
    for y in 0..height {
        for x in 0..width {
            pixels.put_pixel(x, y, Rgb([(x % 256) as u8, (y % 256) as u8, ((x + y) % 256) as u8]));
        }
    }
    DynamicImage::ImageRgb8(pixels)
}

#[test]
fn empty_image_is_empty_with_no_size() {
    let image = RustImageData::empty();
    assert!(image.is_empty());
    assert_eq!(image.get_size(), (0, 0));
    assert!(image.as_dynamic_image().is_none());
}

#[test]
fn empty_image_fails_every_operation() {
    let image = RustImageData::empty();
    assert_eq!(
        image.resize(10, 10, FilterType::Nearest).err(),
        Some(ClipboardError::EmptyContent)
    );
    assert_eq!(
        image.resize(u32::MAX, u32::MAX, FilterType::Lanczos3).err(),
        Some(ClipboardError::EmptyContent)
    );
    assert_eq!(image.thumbnail(10, 10).err(), Some(ClipboardError::EmptyContent));
    assert_eq!(image.to_jpeg().err(), Some(ClipboardError::EmptyContent));
    assert_eq!(image.to_png().err(), Some(ClipboardError::EmptyContent));
    assert_eq!(image.to_bitmap().err(), Some(ClipboardError::EmptyContent));
    assert_eq!(
        image.encode(ImageEncoding::Png).err(),
        Some(ClipboardError::EmptyContent)
    );
    let checked = image.resize_if_fits(10, 10, FilterType::Nearest);
    assert!(matches!(checked, Some(Err(ClipboardError::EmptyContent))));
    assert!(image.is_empty());
}

#[test]
fn require_image_tells_empty_from_held() {
    let empty = RustImageData::empty();
    assert_eq!(empty.require_image().err(), Some(ClipboardError::EmptyContent));
    let source = gradient(3, 4);
    let image = RustImageData::from_dynamic_image(source.clone());
    assert_eq!(image.require_image().ok(), Some(&source));
}

#[test]
fn wrapped_image_records_its_size() {
    let image = RustImageData::from_dynamic_image(gradient(400, 200));
    assert!(!image.is_empty());
    assert_eq!(image.get_size(), (400, 200));
    let held = image.as_dynamic_image().unwrap();
    assert_eq!((held.width(), held.height()), (400, 200));
}

#[test]
fn thumbnail_keeps_the_aspect_ratio() {
    let image = RustImageData::from_dynamic_image(gradient(400, 200));
    let small = image.thumbnail(100, 100).unwrap();
    assert_eq!(small.get_size(), (100, 50));
    assert_eq!(image.get_size(), (400, 200));
}

#[test]
fn thumbnail_bounded_by_height() {
    let image = RustImageData::from_dynamic_image(gradient(200, 400));
    let small = image.thumbnail(100, 100).unwrap();
    assert_eq!(small.get_size(), (50, 100));
}

#[test]
fn thumbnail_never_enlarges() {
    let source = gradient(40, 20);
    let image = RustImageData::from_dynamic_image(source.clone());
    let same = image.thumbnail(1000, 1000).unwrap();
    assert_eq!(same.get_size(), (40, 20));
    assert_eq!(same.as_dynamic_image(), Some(&source));
    let exact = image.thumbnail(40, 20).unwrap();
    assert_eq!(exact.get_size(), (40, 20));
}

#[test]
fn thumbnail_leaves_an_image_without_pixels_alone() {
    let image = RustImageData::from_dynamic_image(DynamicImage::new_rgb8(0, 5));
    assert!(!image.is_empty());
    let same = image.thumbnail(3, 2).unwrap();
    assert_eq!(same.get_size(), (0, 5));
}

#[test]
fn thumbnail_with_a_zero_bound_keeps_one_pixel() {
    let image = RustImageData::from_dynamic_image(gradient(40, 20));
    let dot = image.thumbnail(0, 10).unwrap();
    assert_eq!(dot.get_size(), (1, 1));
}

#[test]
fn thumbnail_with_one_tight_bound_shrinks() {
    let image = RustImageData::from_dynamic_image(gradient(40, 20));
    let small = image.thumbnail(1000, 10).unwrap();
    assert_eq!(small.get_size(), (20, 10));
}

#[test]
fn resize_ignores_the_aspect_ratio() {
    let image = RustImageData::from_dynamic_image(gradient(400, 200));
    assert!(buffer_fits(100, 100) && buffer_fits(400, 100));
    let square = image.resize(100, 100, FilterType::Triangle).unwrap();
    assert_eq!(square.get_size(), (100, 100));
    let held = square.as_dynamic_image().unwrap();
    assert_eq!((held.width(), held.height()), (100, 100));
    assert_eq!(image.get_size(), (400, 200));
}

#[test]
fn resize_can_enlarge() {
    let image = RustImageData::from_dynamic_image(gradient(4, 2));
    let large = image.resize(9, 7, FilterType::Nearest).unwrap();
    assert_eq!(large.get_size(), (9, 7));
}

#[test]
fn resize_if_fits_refuses_what_cannot_be_held() {
    let image = RustImageData::from_dynamic_image(gradient(4, 2));
    assert!(!buffer_fits(u32::MAX, u32::MAX));
    assert!(image
        .resize_if_fits(u32::MAX, u32::MAX, FilterType::Nearest)
        .is_none());
    let fitted = image.resize_if_fits(8, 8, FilterType::Nearest).unwrap().unwrap();
    assert_eq!(fitted.get_size(), (8, 8));
}

#[test]
fn buffer_fits_at_the_limit() {
    assert!(buffer_fits(0, u32::MAX));
    assert!(buffer_fits(1, 1));
    let limit = (isize::MAX as u64) / 16;
    if limit / (1u64 << 31) <= u32::MAX as u64 && limit >= (1u64 << 31) {
        let height = (limit / (1u64 << 31)) as u32;
        assert!(buffer_fits(1u32 << 31, height));
        assert_eq!(
            buffer_fits(1u32 << 31, height + 1),
            ((1u64 << 31) * (height as u64 + 1)) <= limit
        );
    }
}

#[test]
fn png_round_trip_keeps_the_size() {
    let image = RustImageData::from_dynamic_image(gradient(31, 17));
    let png = image.to_png().unwrap();
    let first = RustImageData::from_bytes(png.get_bytes()).unwrap();
    assert_eq!(first.get_size(), (31, 17));
    let again = first.to_png().unwrap();
    let second = RustImageData::from_bytes(again.get_bytes()).unwrap();
    assert_eq!(second.get_size(), first.get_size());
    assert_eq!(second.as_dynamic_image(), first.as_dynamic_image());
}

#[test]
fn jpeg_round_trip_keeps_the_size() {
    let image = RustImageData::from_dynamic_image(gradient(31, 17));
    let jpeg = image.to_jpeg().unwrap();
    let back = RustImageData::from_bytes(jpeg.get_bytes()).unwrap();
    assert_eq!(back.get_size(), (31, 17));
}

#[test]
fn bitmap_round_trip_keeps_the_size() {
    let image = RustImageData::from_dynamic_image(gradient(31, 17));
    let bitmap = image.to_bitmap().unwrap();
    let back = RustImageData::from_bytes(bitmap.get_bytes()).unwrap();
    assert_eq!(back.get_size(), (31, 17));
}

#[test]
fn encodings_carry_their_signatures() {
    let image = RustImageData::from_dynamic_image(gradient(8, 8));
    let png = image.to_png().unwrap();
    assert_eq!(&png.get_bytes()[..8], &[0x89, b'P', b'N', b'G', 0x0d, 0x0a, 0x1a, 0x0a]);
    let jpeg = image.to_jpeg().unwrap();
    assert_eq!(&jpeg.get_bytes()[..2], &[0xff, 0xd8]);
    let bitmap = image.to_bitmap().unwrap();
    assert_eq!(&bitmap.get_bytes()[..2], b"BM");
    let encoded = image.encode(ImageEncoding::Png).unwrap();
    assert_eq!(encoded.get_bytes(), png.get_bytes());
}

#[test]
fn malformed_bytes_fail_to_decode() {
    let result = RustImageData::from_bytes(b"this is not an image");
    assert!(matches!(result, Err(ClipboardError::Decode(_))));
    let empty = RustImageData::from_bytes(&[]);
    assert!(matches!(empty, Err(ClipboardError::Decode(_))));
}

#[test]
fn truncated_png_fails_to_decode() {
    let image = RustImageData::from_dynamic_image(gradient(16, 16));
    let png = image.to_png().unwrap();
    let bytes = png.get_bytes();
    let result = RustImageData::from_bytes(&bytes[..bytes.len() / 2]);
    assert!(matches!(result, Err(ClipboardError::Decode(_))));
}

#[test]
fn from_decoded_maps_both_outcomes() {
    let ok = RustImageData::from_decoded(Ok(gradient(5, 6))).unwrap();
    assert_eq!(ok.get_size(), (5, 6));
    let failure = image::load_from_memory(b"garbage").unwrap_err();
    let text = failure.to_string();
    let err = RustImageData::from_decoded(Err(failure)).unwrap_err();
    assert_eq!(err, ClipboardError::Decode(text));
}

#[test]
fn from_encoded_maps_both_outcomes() {
    let ok = RustImageData::from_encoded(Ok(vec![1, 2, 3])).unwrap();
    assert_eq!(ok.get_bytes(), &[1u8, 2, 3][..]);
    let failure = image::load_from_memory(b"garbage").unwrap_err();
    let text = failure.to_string();
    let err = RustImageData::from_encoded(Err(failure)).unwrap_err();
    assert_eq!(err, ClipboardError::Encode(text));
}

#[test]
fn images_without_pixels_encode_or_fail_cleanly() {
    for (width, height) in [(0, 0), (0, 5), (5, 0)] {
        let image = RustImageData::from_dynamic_image(DynamicImage::new_rgb8(width, height));
        assert_eq!(image.get_size(), (width, height));
        for encoding in [ImageEncoding::Jpeg, ImageEncoding::Png, ImageEncoding::Bitmap] {
            match image.encode(encoding) {
                Ok(buffer) => assert!(!buffer.get_bytes().is_empty()),
                Err(err) => assert!(matches!(err, ClipboardError::Encode(_))),
            }
        }
        let resized = image.resize(3, 3, FilterType::Gaussian).unwrap();
        assert_eq!(resized.get_size(), (3, 3));
    }
}

#[test]
fn every_filter_resizes_to_the_size_asked() {
    let image = RustImageData::from_dynamic_image(gradient(20, 10));
    for filter in [
        FilterType::Nearest,
        FilterType::Triangle,
        FilterType::CatmullRom,
        FilterType::Gaussian,
        FilterType::Lanczos3,
    ] {
        assert_eq!(image.resize(7, 13, filter).unwrap().get_size(), (7, 13));
        assert_eq!(image.resize(0, 4, filter).unwrap().get_size(), (0, 4));
    }
}

#[test]
fn wide_images_encode_or_fail_cleanly() {
    let image = RustImageData::from_dynamic_image(DynamicImage::new_luma8(70000, 1));
    assert!(matches!(image.to_jpeg(), Err(ClipboardError::Encode(_))));
    assert!(image.to_png().is_ok());
}

#[test]
fn every_pixel_layout_encodes_or_fails_cleanly() {
    let layouts = [
        DynamicImage::new_luma8(4, 3),
        DynamicImage::new_luma_a8(4, 3),
        DynamicImage::new_rgb8(4, 3),
        DynamicImage::new_rgba8(4, 3),
        DynamicImage::new_luma16(4, 3),
        DynamicImage::new_luma_a16(4, 3),
        DynamicImage::new_rgb16(4, 3),
        DynamicImage::new_rgba16(4, 3),
        DynamicImage::new_rgb32f(4, 3),
        DynamicImage::new_rgba32f(4, 3),
    ];
    for layout in layouts {
        let image = RustImageData::from_dynamic_image(layout);
        for encoding in [ImageEncoding::Jpeg, ImageEncoding::Png, ImageEncoding::Bitmap] {
            match image.encode(encoding) {
                Ok(buffer) => {
                    let back = RustImageData::from_bytes(buffer.get_bytes()).unwrap();
                    assert_eq!(back.get_size(), (4, 3));
                }
                Err(err) => assert!(matches!(err, ClipboardError::Encode(_))),
            }
        }
        assert_eq!(image.thumbnail(2, 2).unwrap().get_size(), (2, 2));
        assert_eq!(image.resize(5, 5, FilterType::Triangle).unwrap().get_size(), (5, 5));
    }
}

fn white16(width: u32, height: u32) -> DynamicImage {
    DynamicImage::ImageLuma16(ImageBuffer::from_pixel(width, height, Luma([u16::MAX])))
}

#[test]
fn shrink_fits_at_the_limits() {
    assert!(shrink_fits((400, 200), 100, 100));
    assert!(shrink_fits((100, 100), 1, 1));
    assert!(!shrink_fits((101, 100), 1, 1));
    assert!(!shrink_fits((100, 101), 1, 1));
    assert!(!shrink_fits((300, 300), 1, 1));
    assert!(!shrink_fits((65536, 65536), 1, 1));
    assert!(shrink_fits((256, 256), 0, 0));
    assert!(shrink_fits((65536, 1), 7, 0));
    assert!(!shrink_fits((257, 256), 0, 9));
    assert!(shrink_fits((0x100_0000, 1), 0x100_0000, 1));
    assert!(!shrink_fits((0x100_0001, 1), 0x100_0001, 1));
    assert!(!shrink_fits((u32::MAX, u32::MAX), u32::MAX, 0));
}

#[test]
fn thumbnail_if_fits_refuses_what_cannot_be_averaged() {
    let image = RustImageData::from_dynamic_image(white16(300, 300));
    assert!(image.thumbnail_if_fits(1, 1).is_none());
    assert!(image.thumbnail_if_fits(0, 0).is_none());
    let small = image.thumbnail_if_fits(3, 30).unwrap().unwrap();
    assert_eq!(small.get_size(), (3, 3));
    let same = image.thumbnail_if_fits(300, 1000).unwrap().unwrap();
    assert_eq!(same.get_size(), (300, 300));
    let empty = RustImageData::empty();
    assert!(matches!(
        empty.thumbnail_if_fits(1, 1),
        Some(Err(ClipboardError::EmptyContent))
    ));
}

#[test]
fn thumbnail_if_fits_agrees_with_thumbnail() {
    let image = RustImageData::from_dynamic_image(gradient(400, 200));
    assert!(shrink_fits(image.get_size(), 100, 100));
    let checked = image.thumbnail_if_fits(100, 100).unwrap().unwrap();
    let direct = image.thumbnail(100, 100).unwrap();
    assert_eq!(checked.get_size(), (100, 50));
    assert_eq!(checked.as_dynamic_image(), direct.as_dynamic_image());
}

#[test]
fn the_largest_blocks_allowed_are_averaged() {
    let wide = RustImageData::from_dynamic_image(white16(149, 100));
    assert!(shrink_fits(wide.get_size(), 2, 1));
    let dot = wide.thumbnail(2, 1).unwrap();
    assert_eq!(dot.get_size(), (1, 1));
    assert_eq!(dot.as_dynamic_image(), Some(&white16(1, 1)));
    let square = RustImageData::from_dynamic_image(white16(256, 256));
    assert!(shrink_fits(square.get_size(), 0, 0));
    let dot = square.thumbnail(0, 0).unwrap();
    assert_eq!(dot.get_size(), (1, 1));
    assert_eq!(dot.as_dynamic_image(), Some(&white16(1, 1)));
    let tall = RustImageData::from_dynamic_image(white16(100, 200));
    assert!(shrink_fits(tall.get_size(), 1, 2));
    assert_eq!(tall.thumbnail(1, 2).unwrap().get_size(), (1, 2));
}
