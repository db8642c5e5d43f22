use base64::Engine;
use fuyao_core::message::ImageContent;
use fuyao_core::normalize::{
    compress_rgb, normalize_image, normalize_images, scaled_dimensions, shrink_image,
    MAX_IMAGE_BASE64_BYTES, MAX_IMAGE_PIXELS,
};
use std::io::Cursor;

fn small_png_base64(size: u32) -> String {
    let mut img = image::RgbImage::new(size, size);
    for (x, _, p) in img.enumerate_pixels_mut() {
        *p = image::Rgb([x as u8, 17, 200]);
    }
    let mut buf = Vec::new();
    image::DynamicImage::ImageRgb8(img)
        .write_to(&mut Cursor::new(&mut buf), image::ImageFormat::Png)
        .expect("PNG 编码失败");
    base64::engine::general_purpose::STANDARD.encode(&buf)
}

fn noisy_jpeg_base64(width: u32, height: u32) -> String {
    let mut img = image::RgbImage::new(width, height);
    let mut state = 0x1234_5678u32;
    for p in img.pixels_mut() {
        state = state.wrapping_mul(1664525).wrapping_add(1013904223);
        let v = (state >> 16) as u8;
        *p = image::Rgb([v, v.wrapping_mul(3), v.wrapping_add(5)]);
    }
    let mut buf = Vec::new();
    {
        let mut cursor = Cursor::new(&mut buf);
        let mut encoder = image::codecs::jpeg::JpegEncoder::new_with_quality(&mut cursor, 100);
        encoder
            .encode(img.as_raw(), width, height, image::ExtendedColorType::Rgb8)
            .expect("JPEG 编码失败");
    }
    base64::engine::general_purpose::STANDARD.encode(&buf)
}

#[test]
fn normalize_keeps_small_image_untouched() {
    let img = ImageContent { mime_type: "image/png".into(), data: small_png_base64(64) };
    assert!(img.data.len() < MAX_IMAGE_BASE64_BYTES);
    let out = normalize_image(&img).expect("达标图不应失败");
    assert_eq!(out.mime_type, "image/png");
    assert_eq!(out.data, img.data);
}

#[test]
fn normalize_compresses_oversized_wide_image() {
    let raw = noisy_jpeg_base64(2400, 1100);
    assert!(raw.len() > MAX_IMAGE_BASE64_BYTES, "测试前置：原始图必须超限，实际 {}", raw.len());
    let img = ImageContent { mime_type: "image/png".into(), data: raw };
    let out = normalize_image(&img).expect("大图应能压缩");
    assert!(out.data.len() <= MAX_IMAGE_BASE64_BYTES, "压缩后应 ≤5MB，实际 {}", out.data.len());
    assert_eq!(out.mime_type, "image/jpeg");
    let bytes = base64::engine::general_purpose::STANDARD.decode(&out.data).unwrap();
    let decoded = image::load_from_memory(&bytes).unwrap();
    let (w, h) = (decoded.width(), decoded.height());
    assert!(w.max(h) <= MAX_IMAGE_PIXELS, "缩放后最大边应 ≤2000，实际 {w}x{h}");
}

#[test]
fn normalize_rejects_invalid_base64() {
    let img = ImageContent {
        mime_type: "image/png".into(),
        data: "!!!not-base64!!!".repeat(1_000_000),
    };
    assert!(normalize_image(&img).is_none());
}

#[test]
fn normalize_rejects_undecodable_image() {
    let junk = base64::engine::general_purpose::STANDARD.encode(b"not an image at all");
    let img = ImageContent { mime_type: "image/png".into(), data: junk.repeat(300_000) };
    assert!(normalize_image(&img).is_none());
}

#[test]
fn normalize_rejects_bytes_that_are_no_image() {
    let junk = base64::engine::general_purpose::STANDARD.encode(vec![7u8; 6 * 1024 * 1024]);
    let img = ImageContent { mime_type: "image/png".into(), data: junk };
    assert!(img.data.len() > MAX_IMAGE_BASE64_BYTES);
    assert!(normalize_image(&img).is_none());
}

#[test]
fn scaled_dimensions_shrinks_only_oversized() {
    assert_eq!(scaled_dimensions(100, 200), (100, 200));
    assert_eq!(scaled_dimensions(2000, 1500), (2000, 1500));
    assert_eq!(scaled_dimensions(4000, 2000), (2000, 1000));
    assert_eq!(scaled_dimensions(8000, 4000), (2000, 1000));
    let (w, h) = scaled_dimensions(1, 100_000);
    assert_eq!(w, 1);
    assert_eq!(h, 2000);
}

#[test]
fn scaled_dimensions_at_the_edges() {
    assert_eq!(scaled_dimensions(0, 0), (0, 0));
    assert_eq!(scaled_dimensions(2001, 2001), (2000, 2000));
    assert_eq!(scaled_dimensions(3000, 1000), (2000, 666));
    assert_eq!(scaled_dimensions(u32::MAX, u32::MAX), (2000, 2000));
    assert_eq!(scaled_dimensions(u32::MAX, 0), (2000, 1));
    let (w, h) = scaled_dimensions(12345, 6789);
    assert_eq!(scaled_dimensions(w, h), (w, h));
}

#[test]
fn pixels_become_a_jpeg_at_the_best_quality() {
    let rgb: Vec<u8> = (0..16 * 16 * 3).map(|i| (i % 251) as u8).collect();
    let out = compress_rgb(&rgb, 16, 16).expect("小图应能编码");
    assert_eq!(out.mime_type, "image/jpeg");
    let mut expected = Vec::new();
    image::codecs::jpeg::JpegEncoder::new_with_quality(&mut expected, 85)
        .encode(&rgb, 16, 16, image::ExtendedColorType::Rgb8)
        .unwrap();
    assert_eq!(out.data, base64::engine::general_purpose::STANDARD.encode(&expected));
}

#[test]
fn images_without_extent_cannot_be_encoded() {
    assert!(compress_rgb(&vec![], 0, 0).is_none());
}

#[test]
fn a_long_side_is_scaled() {
    let img = image::DynamicImage::ImageRgb8(image::RgbImage::new(4000, 10));
    let out = shrink_image(img).expect("应能压缩");
    let bytes = base64::engine::general_purpose::STANDARD.decode(&out.data).unwrap();
    let decoded = image::load_from_memory(&bytes).unwrap();
    assert_eq!((decoded.width(), decoded.height()), (2000, 5));
}

#[test]
fn images_are_kept_or_counted() {
    let small = ImageContent { mime_type: "image/png".into(), data: "aGVsbG8=".into() };
    let bad = ImageContent {
        mime_type: "image/png".into(),
        data: "!!!not-base64!!!".repeat(400_000),
    };
    let other = ImageContent { mime_type: "image/gif".into(), data: "R0lG".into() };
    let (kept, failed) = normalize_images(&vec![small, bad, other]);
    assert_eq!(failed, 1);
    assert_eq!(kept.len(), 2);
    assert_eq!(kept[0].data, "aGVsbG8=");
    assert_eq!(kept[1].mime_type, "image/gif");
}
