//! Rendering, encoding, and compositing, exercised on concrete pixels.
use image_transformer::transformer::EncodingOptions;
use image_transformer::transformer::ImageTransformer;
use image_transformer::types::ImageFormat;
use image_transformer::types::PixelFormat;
use image_transformer::types::ResizeMode;
use image_transformer::types::RgbaValue;
use image_transformer::types::RotationMode;
use image_transformer::types::TransformError;

const RED: [u8; 4] = [255, 0, 0, 255];
const GREEN: [u8; 4] = [0, 255, 0, 255];
const BLUE: [u8; 4] = [0, 0, 255, 255];
const WHITE: [u8; 4] = [255, 255, 255, 255];

fn buffer_of(pixels: &[[u8; 4]]) -> Vec<u8> {
    let mut out = Vec::new();
    for p in pixels {
        out.extend_from_slice(p);
    }
    out
}

fn pixels_of(buffer: &[u8]) -> Vec<[u8; 4]> {
    buffer.chunks(4).map(|c| [c[0], c[1], c[2], c[3]]).collect()
}

fn source_2x2() -> ImageTransformer {
    // Row 0: red, green; row 1: blue, white.
    let buffer = buffer_of(&[RED, GREEN, BLUE, WHITE]);
    ImageTransformer::from_buffer(buffer, 2, 2, PixelFormat::rgba)
}

#[test]
fn zero_operations_return_the_source_unchanged() {
    let t = source_2x2();
    let out = t.to_buffer_sync(PixelFormat::rgba).unwrap();
    assert_eq!(out.width, 2);
    assert_eq!(out.height, 2);
    assert_eq!(out.buffer, buffer_of(&[RED, GREEN, BLUE, WHITE]));
}

#[test]
fn rgb_source_gains_an_opaque_alpha_channel() {
    let t = ImageTransformer::from_buffer(vec![1, 2, 3, 4, 5, 6], 2, 1, PixelFormat::rgb);
    let out = t.to_buffer_sync(PixelFormat::rgba).unwrap();
    assert_eq!(out.buffer, vec![1, 2, 3, 255, 4, 5, 6, 255]);
}

#[test]
fn rgb_target_drops_the_alpha_channel() {
    let t = ImageTransformer::from_buffer(vec![1, 2, 3, 9, 4, 5, 6, 8], 2, 1, PixelFormat::rgba);
    let out = t.to_buffer_sync(PixelFormat::rgb).unwrap();
    assert_eq!(out.buffer, vec![1, 2, 3, 4, 5, 6]);
}

#[test]
fn raw_rgba_round_trip_reproduces_the_bytes() {
    let mut t = source_2x2();
    t.flip_horizontal();
    let first = t.to_buffer_sync(PixelFormat::rgba).unwrap();
    let back = ImageTransformer::from_buffer(
        first.buffer.clone(),
        first.width,
        first.height,
        PixelFormat::rgba,
    );
    let second = back.to_buffer_sync(PixelFormat::rgba).unwrap();
    assert_eq!(second.buffer, first.buffer);
    assert_eq!((second.width, second.height), (first.width, first.height));
}

#[test]
fn flip_horizontal_mirrors_rows() {
    let mut t = source_2x2();
    t.flip_horizontal();
    let out = t.to_buffer_sync(PixelFormat::rgba).unwrap();
    assert_eq!(pixels_of(&out.buffer), vec![GREEN, RED, WHITE, BLUE]);
}

#[test]
fn flip_vertical_mirrors_columns() {
    let mut t = source_2x2();
    t.flip_vertical();
    let out = t.to_buffer_sync(PixelFormat::rgba).unwrap();
    assert_eq!(pixels_of(&out.buffer), vec![BLUE, WHITE, RED, GREEN]);
}

#[test]
fn rotate90_turns_clockwise() {
    let mut t = source_2x2();
    t.rotate(RotationMode::CW90);
    let out = t.to_buffer_sync(PixelFormat::rgba).unwrap();
    assert_eq!(pixels_of(&out.buffer), vec![BLUE, RED, WHITE, GREEN]);
}

#[test]
fn rotate180_reverses_everything() {
    let mut t = source_2x2();
    t.rotate(RotationMode::CW180);
    let out = t.to_buffer_sync(PixelFormat::rgba).unwrap();
    assert_eq!(pixels_of(&out.buffer), vec![WHITE, BLUE, GREEN, RED]);
}

#[test]
fn rotate270_turns_counterclockwise() {
    let mut t = source_2x2();
    t.rotate(RotationMode::CW270);
    let out = t.to_buffer_sync(PixelFormat::rgba).unwrap();
    assert_eq!(pixels_of(&out.buffer), vec![GREEN, WHITE, RED, BLUE]);
}

#[test]
fn rotate90_then_rotate270_is_pixel_identical() {
    let mut t = source_2x2();
    t.rotate(RotationMode::CW90);
    t.rotate(RotationMode::CW270);
    let out = t.to_buffer_sync(PixelFormat::rgba).unwrap();
    assert_eq!((out.width, out.height), (2, 2));
    assert_eq!(out.buffer, buffer_of(&[RED, GREEN, BLUE, WHITE]));
}

#[test]
fn crop_keeps_exactly_the_rectangle() {
    // 3x1: red green blue, cropped to the middle pixel.
    let t = ImageTransformer::from_buffer(buffer_of(&[RED, GREEN, BLUE]), 3, 1, PixelFormat::rgba);
    let mut t = t;
    t.crop(1, 0, 1, 1).unwrap();
    let out = t.to_buffer_sync(PixelFormat::rgba).unwrap();
    assert_eq!((out.width, out.height), (1, 1));
    assert_eq!(pixels_of(&out.buffer), vec![GREEN]);
}

#[test]
fn crop_center_floors_the_offset() {
    // 4x1 row; a centered 2x1 crop starts at (4 - 2) / 2 = 1.
    let row = [RED, GREEN, BLUE, WHITE];
    let mut t = ImageTransformer::from_buffer(buffer_of(&row), 4, 1, PixelFormat::rgba);
    t.crop_center(2, 1).unwrap();
    let out = t.to_buffer_sync(PixelFormat::rgba).unwrap();
    assert_eq!(pixels_of(&out.buffer), vec![GREEN, BLUE]);
}

#[test]
fn pad_fills_margins_with_the_color() {
    let red = RgbaValue { red: 255, green: 0, blue: 0, alpha: 255 };
    let mut t = ImageTransformer::from_buffer(buffer_of(&[GREEN]), 1, 1, PixelFormat::rgba);
    t.pad(1, 0, 1, 0, red);
    let out = t.to_buffer_sync(PixelFormat::rgba).unwrap();
    assert_eq!((out.width, out.height), (2, 2));
    assert_eq!(pixels_of(&out.buffer), vec![RED, RED, RED, GREEN]);
}

#[test]
fn scale_render_matches_the_dimension_model() {
    let mut t = ImageTransformer::from_buffer(
        vec![7u8; 100 * 100 * 4],
        100,
        100,
        PixelFormat::rgba,
    );
    t.scale(200, 100, Some(ResizeMode::Fill)).unwrap();
    let predicted = t.get_current_dimensions();
    let out = t.to_buffer_sync(PixelFormat::rgba).unwrap();
    assert_eq!((out.width, out.height), (predicted.width, predicted.height));
    assert_eq!((out.width, out.height), (200, 100));
    assert_eq!(out.buffer.len(), 200 * 100 * 4);
}

#[test]
fn scale_fit_render_matches_the_dimension_model() {
    let mut t = ImageTransformer::from_buffer(vec![7u8; 100 * 50 * 4], 100, 50, PixelFormat::rgba);
    t.scale(30, 30, Some(ResizeMode::Fit)).unwrap();
    let predicted = t.get_current_dimensions();
    assert_eq!((predicted.width, predicted.height), (30, 15));
    let out = t.to_buffer_sync(PixelFormat::rgba).unwrap();
    assert_eq!((out.width, out.height), (30, 15));
}

#[test]
fn overlay_fully_opaque_pixel_replaces_the_base() {
    let mut base = source_2x2();
    let top = ImageTransformer::from_buffer(buffer_of(&[GREEN]), 1, 1, PixelFormat::rgba);
    base.overlay(&top, 1, 1).unwrap();
    let out = base.to_buffer_sync(PixelFormat::rgba).unwrap();
    assert_eq!(pixels_of(&out.buffer), vec![RED, GREEN, BLUE, GREEN]);
}

#[test]
fn overlay_equal_size_opaque_replaces_everything() {
    let mut base = source_2x2();
    let top = ImageTransformer::from_buffer(
        buffer_of(&[WHITE, BLUE, GREEN, RED]),
        2,
        2,
        PixelFormat::rgba,
    );
    base.overlay(&top, 0, 0).unwrap();
    let out = base.to_buffer_sync(PixelFormat::rgba).unwrap();
    assert_eq!(pixels_of(&out.buffer), vec![WHITE, BLUE, GREEN, RED]);
}

#[test]
fn overlay_transparent_pixels_leave_the_base() {
    let mut base = source_2x2();
    let clear = [0u8, 99, 99, 0];
    let top = ImageTransformer::from_buffer(buffer_of(&[clear]), 1, 1, PixelFormat::rgba);
    base.overlay(&top, 0, 0).unwrap();
    let out = base.to_buffer_sync(PixelFormat::rgba).unwrap();
    assert_eq!(pixels_of(&out.buffer), vec![RED, GREEN, BLUE, WHITE]);
}

#[test]
fn overlay_past_the_edge_is_clipped_silently() {
    let mut base = source_2x2();
    let top = ImageTransformer::from_buffer(
        buffer_of(&[GREEN, GREEN, GREEN, GREEN]),
        2,
        2,
        PixelFormat::rgba,
    );
    base.overlay(&top, 1, 1).unwrap();
    let out = base.to_buffer_sync(PixelFormat::rgba).unwrap();
    // Only the overlapping bottom-right pixel changes.
    assert_eq!(pixels_of(&out.buffer), vec![RED, GREEN, BLUE, GREEN]);
}

#[test]
fn overlay_renders_the_nested_spec() {
    let mut base = source_2x2();
    let mut top = ImageTransformer::from_buffer(buffer_of(&[GREEN, BLUE]), 2, 1, PixelFormat::rgba);
    top.flip_horizontal();
    top.crop(0, 0, 1, 1).unwrap();
    base.overlay(&top, 0, 0).unwrap();
    let out = base.to_buffer_sync(PixelFormat::rgba).unwrap();
    // The nested spec renders to a single blue pixel.
    assert_eq!(pixels_of(&out.buffer), vec![BLUE, GREEN, BLUE, WHITE]);
}

#[test]
fn png_round_trip_preserves_pixels() {
    let t = source_2x2();
    let encoded = t.to_encoded_image_sync(ImageFormat::png, None).unwrap();
    assert_eq!((encoded.width, encoded.height), (2, 2));
    let back = ImageTransformer::from_encoded_image(encoded.buffer).unwrap();
    let info = back.get_current_dimensions();
    assert_eq!((info.width, info.height), (2, 2));
    let out = back.to_buffer_sync(PixelFormat::rgba).unwrap();
    assert_eq!(out.buffer, buffer_of(&[RED, GREEN, BLUE, WHITE]));
}

#[test]
fn webp_lossless_round_trip_preserves_pixels() {
    let t = source_2x2();
    let encoded = t.to_encoded_image_sync(ImageFormat::webp, None).unwrap();
    let back = ImageTransformer::from_encoded_image(encoded.buffer).unwrap();
    let out = back.to_buffer_sync(PixelFormat::rgba).unwrap();
    assert_eq!(out.buffer, buffer_of(&[RED, GREEN, BLUE, WHITE]));
}

#[test]
fn jpeg_encodes_and_reloads_at_the_same_size() {
    let t = ImageTransformer::from_buffer(vec![200u8; 8 * 8 * 4], 8, 8, PixelFormat::rgba);
    let encoded = t
        .to_encoded_image_sync(ImageFormat::jpeg, Some(EncodingOptions { quality: Some(90) }))
        .unwrap();
    let back = ImageTransformer::from_encoded_image(encoded.buffer).unwrap();
    let info = back.get_current_dimensions();
    assert_eq!((info.width, info.height), (8, 8));
}

#[test]
fn jpeg_quality_is_clamped_to_the_codec_maximum() {
    let t = ImageTransformer::from_buffer(vec![123u8; 4 * 4 * 4], 4, 4, PixelFormat::rgba);
    let at_max = t
        .to_encoded_image_sync(ImageFormat::jpeg, Some(EncodingOptions { quality: Some(100) }))
        .unwrap();
    let above_max = t
        .to_encoded_image_sync(ImageFormat::jpeg, Some(EncodingOptions { quality: Some(255) }))
        .unwrap();
    assert_eq!(at_max.buffer, above_max.buffer);
}

#[test]
fn jpeg_omitted_quality_is_the_documented_default() {
    let t = ImageTransformer::from_buffer(vec![123u8; 4 * 4 * 4], 4, 4, PixelFormat::rgba);
    let omitted = t.to_encoded_image_sync(ImageFormat::jpeg, None).unwrap();
    let explicit = t
        .to_encoded_image_sync(ImageFormat::jpeg, Some(EncodingOptions { quality: Some(75) }))
        .unwrap();
    let with_empty_options = t
        .to_encoded_image_sync(ImageFormat::jpeg, Some(EncodingOptions { quality: None }))
        .unwrap();
    assert_eq!(omitted.buffer, explicit.buffer);
    assert_eq!(omitted.buffer, with_empty_options.buffer);
}

#[test]
fn host_quality_scale_maps_to_codec_endpoints() {
    // A host passing a quality in [0.0, 1.0] multiplies by 100 before
    // handing it over: the endpoints land on the codec's minimum and
    // maximum settings.
    assert_eq!((0.0f64 * 100.0) as u8, 0);
    assert_eq!((1.0f64 * 100.0) as u8, 100);
    assert_eq!((0.755f64 * 100.0) as u8, 75);
}

#[test]
fn jpeg_quality_extremes_encode_differently() {
    // A gradient image: minimum and maximum quality must not produce the
    // same stream.
    let mut buffer = Vec::new();
    for y in 0..8u32 {
        for x in 0..8u32 {
            buffer.extend_from_slice(&[(x * 32) as u8, (y * 32) as u8, 128, 255]);
        }
    }
    let t = ImageTransformer::from_buffer(buffer, 8, 8, PixelFormat::rgba);
    let low = t
        .to_encoded_image_sync(ImageFormat::jpeg, Some(EncodingOptions { quality: Some(0) }))
        .unwrap();
    let high = t
        .to_encoded_image_sync(ImageFormat::jpeg, Some(EncodingOptions { quality: Some(100) }))
        .unwrap();
    assert_ne!(low.buffer, high.buffer);
}

#[test]
fn wrong_raw_buffer_length_is_rejected_at_render() {
    let t = ImageTransformer::from_buffer(vec![0u8; 10], 2, 2, PixelFormat::rgba);
    assert_eq!(t.to_buffer_sync(PixelFormat::rgba), Err(TransformError::InvalidPixelBuffer));
}

#[test]
fn empty_raw_buffer_is_rejected_at_render() {
    let t = ImageTransformer::from_buffer(Vec::new(), 0, 0, PixelFormat::rgba);
    assert_eq!(t.to_buffer_sync(PixelFormat::rgba), Err(TransformError::InvalidPixelBuffer));
}

#[test]
fn unrecognizable_bytes_fail_to_construct() {
    let garbage = vec![1u8, 2, 3, 4, 5, 6, 7, 8];
    assert_eq!(
        ImageTransformer::from_encoded_image(garbage).err(),
        Some(TransformError::DecodeError)
    );
}

#[test]
fn oversized_jpeg_reports_the_codec_error() {
    // The JPEG codec cannot encode images wider than 65535 pixels.
    let t = ImageTransformer::from_buffer(vec![0u8; 70000 * 4], 70000, 1, PixelFormat::rgba);
    let result = t.to_encoded_image_sync(ImageFormat::jpeg, None);
    assert!(matches!(result, Err(TransformError::EncodeError(_))));
}

#[test]
fn renderability_check_accepts_ordinary_specs() {
    let mut t = source_2x2();
    t.scale(4, 4, Some(ResizeMode::Fit)).unwrap();
    assert!(t.is_renderable());
}

#[test]
fn renderability_check_rejects_overflowing_pads() {
    let mut t = source_2x2();
    t.pad(u32::MAX, u32::MAX, 0, 0, RgbaValue { red: 0, green: 0, blue: 0, alpha: 0 });
    assert!(!t.is_renderable());
}
