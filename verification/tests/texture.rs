use glprep::texture::{load_texture, TextureData, TextureError};
use image::{DynamicImage, GrayImage, ImageFormat, RgbImage, RgbaImage};

fn encode(image: DynamicImage, format: ImageFormat) -> Vec<u8> {
    let mut bytes = Vec::new();
    image.write_to(&mut std::io::Cursor::new(&mut bytes), format).unwrap();
    bytes
}

fn two_by_two() -> Vec<u8> {
    let pixels = vec![
        255, 0, 0, /**/ 0, 255, 0, //
        0, 0, 255, /**/ 10, 20, 30,
    ];
    encode(DynamicImage::ImageRgb8(RgbImage::from_raw(2, 2, pixels).unwrap()), ImageFormat::Png)
}

fn gradient(width: u32, height: u32) -> RgbImage {
    RgbImage::from_fn(width, height, |x, y| {
        image::Rgb([(x * 16) as u8, (y * 24) as u8, ((x + y) * 8) as u8])
    })
}

fn as_the_image_crate_flips(bytes: &[u8], format: ImageFormat) -> (u32, u32, Vec<u8>) {
    let flipped = image::load_from_memory_with_format(bytes, format).unwrap().flipv();
    let (width, height) = (flipped.width(), flipped.height());
    (width, height, flipped.into_rgba8().into_raw())
}

#[test]
fn two_by_two_png_comes_out_with_rows_reversed_and_alpha_added() {
    let texture = load_texture("png", &two_by_two()).unwrap();
    assert_eq!(texture.width(), 2);
    assert_eq!(texture.height(), 2);
    assert_eq!(
        texture.pixels(),
        &vec![
            0, 0, 255, 255, /**/ 10, 20, 30, 255, //
            255, 0, 0, 255, /**/ 0, 255, 0, 255,
        ]
    );
}

#[test]
fn png_with_alpha_keeps_its_channel_values() {
    let pixels = vec![
        1, 2, 3, 4, //
        5, 6, 7, 8, //
        9, 10, 11, 12,
    ];
    let bytes =
        encode(DynamicImage::ImageRgba8(RgbaImage::from_raw(1, 3, pixels).unwrap()), ImageFormat::Png);
    let texture = load_texture("png", &bytes).unwrap();
    assert_eq!((texture.width(), texture.height()), (1, 3));
    assert_eq!(texture.pixels(), &vec![9, 10, 11, 12, 5, 6, 7, 8, 1, 2, 3, 4]);
}

#[test]
fn grayscale_png_is_expanded_to_four_channels() {
    let bytes = encode(
        DynamicImage::ImageLuma8(GrayImage::from_raw(2, 2, vec![10, 20, 30, 40]).unwrap()),
        ImageFormat::Png,
    );
    let texture = load_texture("png", &bytes).unwrap();
    assert_eq!(
        texture.pixels(),
        &vec![
            30, 30, 30, 255, /**/ 40, 40, 40, 255, //
            10, 10, 10, 255, /**/ 20, 20, 20, 255,
        ]
    );
}

#[test]
fn png_texture_is_what_flipping_then_converting_gives() {
    let bytes = encode(DynamicImage::ImageRgb8(gradient(7, 5)), ImageFormat::Png);
    let texture = load_texture("png", &bytes).unwrap();
    let (width, height, pixels) = as_the_image_crate_flips(&bytes, ImageFormat::Png);
    assert_eq!((texture.width(), texture.height()), (width, height));
    assert_eq!(texture.pixels(), &pixels);
    assert_eq!(texture.pixels().len(), 4 * 7 * 5);
}

#[test]
fn jpeg_texture_is_what_flipping_then_converting_gives() {
    let bytes = encode(DynamicImage::ImageRgb8(gradient(16, 8)), ImageFormat::Jpeg);
    let texture = load_texture("jpg", &bytes).unwrap();
    let (width, height, pixels) = as_the_image_crate_flips(&bytes, ImageFormat::Jpeg);
    assert_eq!((texture.width(), texture.height()), (16, 8));
    assert_eq!((texture.width(), texture.height()), (width, height));
    assert_eq!(texture.pixels(), &pixels);
}

#[test]
fn extension_is_read_without_regard_to_case() {
    let png = two_by_two();
    for extension in ["png", "PNG", "Png", "apng", "APNG"] {
        assert!(load_texture(extension, &png).is_ok());
    }
    let jpeg = encode(DynamicImage::ImageRgb8(gradient(8, 8)), ImageFormat::Jpeg);
    for extension in ["jpg", "jpeg", "jfif", "JPG", "JpEg"] {
        assert!(load_texture(extension, &jpeg).is_ok());
    }
}

#[test]
fn extension_decides_the_format_not_the_content() {
    let png = two_by_two();
    assert!(matches!(load_texture("jpg", &png), Err(TextureError::Decode { .. })));
    let jpeg = encode(DynamicImage::ImageRgb8(gradient(8, 8)), ImageFormat::Jpeg);
    assert!(matches!(load_texture("png", &jpeg), Err(TextureError::Decode { .. })));
}

#[test]
fn unknown_extension_is_unsupported() {
    let png = two_by_two();
    for extension in ["", "pngx", "p", ".png", "png ", "jp", "obj", "txt", "jpe", "p\u{f1}g", "tif f"] {
        assert_eq!(load_texture(extension, &png), Err(TextureError::UnsupportedFormat));
    }
}

#[test]
fn every_known_extension_reaches_the_decoder() {
    let known = [
        "avif", "jpg", "jpeg", "jfif", "png", "apng", "gif", "webp", "tif", "tiff", "tga", "dds",
        "bmp", "ico", "hdr", "exr", "pbm", "pam", "ppm", "pgm", "pnm", "ff", "qoi",
    ];
    for extension in known {
        let lower = load_texture(extension, b"no image at all");
        assert!(matches!(lower, Err(TextureError::Decode { .. })), "{}", extension);
        let upper = load_texture(&extension.to_uppercase(), b"no image at all");
        assert!(matches!(upper, Err(TextureError::Decode { .. })), "{}", extension);
    }
}

#[test]
fn avif_is_known_but_cannot_be_decoded() {
    assert!(matches!(load_texture("avif", &two_by_two()), Err(TextureError::Decode { .. })));
}

fn check_against_the_image_crate(image: DynamicImage, format: ImageFormat, extension: &str) {
    let bytes = encode(image, format);
    let texture = load_texture(extension, &bytes).unwrap();
    let (width, height, pixels) = as_the_image_crate_flips(&bytes, format);
    assert_eq!((texture.width(), texture.height()), (width, height), "{}", extension);
    assert_eq!(texture.pixels(), &pixels, "{}", extension);
    assert_eq!(texture.pixels().len(), 4 * width as usize * height as usize, "{}", extension);
}

#[test]
fn other_formats_are_decoded_as_the_image_crate_decodes_them() {
    let rgb = || DynamicImage::ImageRgb8(gradient(6, 4));
    check_against_the_image_crate(rgb(), ImageFormat::Bmp, "bmp");
    check_against_the_image_crate(rgb(), ImageFormat::Tga, "tga");
    check_against_the_image_crate(rgb(), ImageFormat::Tiff, "tif");
    check_against_the_image_crate(rgb(), ImageFormat::Tiff, "tiff");
    check_against_the_image_crate(rgb(), ImageFormat::Pnm, "ppm");
    check_against_the_image_crate(rgb(), ImageFormat::Qoi, "qoi");
    check_against_the_image_crate(rgb(), ImageFormat::WebP, "webp");
    let rgba = || DynamicImage::ImageRgba8(rgb().into_rgba8());
    check_against_the_image_crate(rgba(), ImageFormat::Gif, "gif");
    check_against_the_image_crate(rgba(), ImageFormat::Ico, "ico");
    let rgba16 = DynamicImage::ImageRgba16(rgb().into_rgba16());
    check_against_the_image_crate(rgba16, ImageFormat::Farbfeld, "ff");
    let rgb32f = || DynamicImage::ImageRgb32F(rgb().into_rgb32f());
    check_against_the_image_crate(rgb32f(), ImageFormat::Hdr, "hdr");
    check_against_the_image_crate(rgb32f(), ImageFormat::OpenExr, "exr");
}

#[test]
fn bmp_comes_out_with_rows_reversed() {
    let pixels = vec![
        255, 0, 0, /**/ 0, 255, 0, //
        0, 0, 255, /**/ 10, 20, 30,
    ];
    let bytes =
        encode(DynamicImage::ImageRgb8(RgbImage::from_raw(2, 2, pixels).unwrap()), ImageFormat::Bmp);
    let texture = load_texture("BMP", &bytes).unwrap();
    assert_eq!(
        texture.pixels(),
        &vec![
            0, 0, 255, 255, /**/ 10, 20, 30, 255, //
            255, 0, 0, 255, /**/ 0, 255, 0, 255,
        ]
    );
}

#[test]
fn bytes_that_are_no_image_are_a_decode_error_with_a_message() {
    match load_texture("png", b"this is not a picture") {
        Err(TextureError::Decode { message }) => assert!(!message.is_empty()),
        other => panic!("expected a decode error, got {:?}", other),
    }
    assert!(matches!(load_texture("png", &[]), Err(TextureError::Decode { .. })));
    assert!(matches!(load_texture("jpeg", &[0xff, 0xd8]), Err(TextureError::Decode { .. })));
}

#[test]
fn truncated_png_is_a_decode_error() {
    let png = two_by_two();
    assert!(matches!(load_texture("png", &png[..png.len() / 2]), Err(TextureError::Decode { .. })));
}

#[test]
fn decoded_rows_are_reversed() {
    let top_down = vec![
        1, 1, 1, 1, /**/ 2, 2, 2, 2, //
        3, 3, 3, 3, /**/ 4, 4, 4, 4, //
        5, 5, 5, 5, /**/ 6, 6, 6, 6,
    ];
    let texture = TextureData::from_top_down(2, 3, top_down).unwrap();
    assert_eq!((texture.width(), texture.height()), (2, 3));
    assert_eq!(
        texture.pixels(),
        &vec![
            5, 5, 5, 5, /**/ 6, 6, 6, 6, //
            3, 3, 3, 3, /**/ 4, 4, 4, 4, //
            1, 1, 1, 1, /**/ 2, 2, 2, 2,
        ]
    );
}

#[test]
fn reversing_the_rows_twice_gives_the_image_back() {
    let top_down: Vec<u8> = (0..4 * 3 * 5).map(|i| i as u8).collect();
    let once = TextureData::from_top_down(3, 5, top_down.clone()).unwrap();
    assert_ne!(once.pixels(), &top_down);
    let twice = TextureData::from_top_down(3, 5, once.pixels().clone()).unwrap();
    assert_eq!(twice.pixels(), &top_down);
}

#[test]
fn single_row_is_left_as_it_is() {
    let row = vec![1, 2, 3, 4, 5, 6, 7, 8];
    let texture = TextureData::from_top_down(2, 1, row.clone()).unwrap();
    assert_eq!(texture.pixels(), &row);
}

#[test]
fn empty_images_are_textures_too() {
    for (width, height) in [(0, 0), (0, 7), (7, 0), (u32::MAX, 0), (0, u32::MAX)] {
        let texture = TextureData::from_top_down(width, height, vec![]).unwrap();
        assert_eq!((texture.width(), texture.height()), (width, height));
        assert!(texture.pixels().is_empty());
    }
}

#[test]
fn buffer_of_the_wrong_size_is_refused() {
    assert_eq!(TextureData::from_top_down(2, 2, vec![0; 15]), Err(TextureError::SizeMismatch));
    assert_eq!(TextureData::from_top_down(2, 2, vec![0; 17]), Err(TextureError::SizeMismatch));
    assert_eq!(TextureData::from_top_down(2, 2, vec![]), Err(TextureError::SizeMismatch));
    assert_eq!(TextureData::from_top_down(0, 0, vec![0]), Err(TextureError::SizeMismatch));
    assert_eq!(
        TextureData::from_top_down(u32::MAX, u32::MAX, vec![0; 4]),
        Err(TextureError::SizeMismatch)
    );
    assert!(TextureData::from_top_down(2, 2, vec![0; 16]).is_ok());
}
