//! Builder validation and the dimension model, exercised on concrete specs.
use image_transformer::transformer::ImageTransformer;
use image_transformer::types::PixelFormat;
use image_transformer::types::ResizeMode;
use image_transformer::types::RgbaValue;
use image_transformer::types::RotationMode;
use image_transformer::types::TransformError;

fn rgba_source(width: u32, height: u32) -> ImageTransformer {
    let buffer = vec![0u8; (width * height * 4) as usize];
    ImageTransformer::from_buffer(buffer, width, height, PixelFormat::rgba)
}

fn dims(t: &ImageTransformer) -> (u32, u32) {
    let info = t.get_current_dimensions();
    (info.width, info.height)
}

#[test]
fn source_dimensions_are_tracked() {
    let t = rgba_source(100, 50);
    assert_eq!(dims(&t), (100, 50));
}

#[test]
fn scale_exact_sets_the_target() {
    let mut t = rgba_source(100, 50);
    t.scale(30, 70, Some(ResizeMode::Exact)).unwrap();
    assert_eq!(dims(&t), (30, 70));
}

#[test]
fn scale_default_mode_is_exact() {
    let mut t = rgba_source(100, 50);
    t.scale(30, 70, None).unwrap();
    assert_eq!(dims(&t), (30, 70));
}

#[test]
fn scale_fill_hits_the_exact_target_box() {
    let mut t = rgba_source(100, 100);
    t.scale(200, 100, Some(ResizeMode::Fill)).unwrap();
    assert_eq!(dims(&t), (200, 100));
}

#[test]
fn scale_fit_preserves_aspect_ratio() {
    let mut t = rgba_source(100, 50);
    t.scale(200, 200, Some(ResizeMode::Fit)).unwrap();
    assert_eq!(dims(&t), (200, 100));
}

#[test]
fn scale_fit_rounds_to_nearest() {
    // 3x2 fit into a 2x2 box: the width ratio 2/3 is the smaller one, so
    // the height becomes round(2 * 2/3) = round(1.33) = 1.
    let mut t = rgba_source(3, 2);
    t.scale(2, 2, Some(ResizeMode::Fit)).unwrap();
    assert_eq!(dims(&t), (2, 1));
}

#[test]
fn scale_fit_never_collapses_to_zero() {
    let mut t = rgba_source(1000, 1);
    t.scale(10, 10, Some(ResizeMode::Fit)).unwrap();
    assert_eq!(dims(&t), (10, 1));
}

#[test]
fn scale_rejects_zero_dimensions() {
    let mut t = rgba_source(100, 50);
    assert_eq!(t.scale(0, 70, None), Err(TransformError::InvalidDimensions));
    assert_eq!(t.scale(70, 0, None), Err(TransformError::InvalidDimensions));
    assert_eq!(dims(&t), (100, 50));
}

#[test]
fn crop_sets_the_target() {
    let mut t = rgba_source(100, 50);
    t.crop(10, 20, 30, 25).unwrap();
    assert_eq!(dims(&t), (30, 25));
}

#[test]
fn crop_at_the_exact_boundary_succeeds() {
    let mut t = rgba_source(100, 50);
    t.crop(70, 20, 30, 30).unwrap();
    assert_eq!(dims(&t), (30, 30));
}

#[test]
fn crop_past_the_boundary_fails() {
    let mut t = rgba_source(100, 50);
    assert_eq!(t.crop(71, 0, 30, 30), Err(TransformError::InvalidDimensions));
    assert_eq!(t.crop(0, 21, 30, 30), Err(TransformError::InvalidDimensions));
    assert_eq!(t.crop(0, 0, 101, 1), Err(TransformError::InvalidDimensions));
    assert_eq!(t.crop(0, 0, 0, 30), Err(TransformError::InvalidDimensions));
    assert_eq!(dims(&t), (100, 50));
}

#[test]
fn crop_validates_against_the_tracked_size_not_the_source() {
    let mut t = rgba_source(10, 10);
    t.pad(0, 0, 0, 90, RgbaValue { red: 0, green: 0, blue: 0, alpha: 0 });
    // After the pad the canvas is 10x100, so a deep crop succeeds.
    t.crop(0, 50, 10, 50).unwrap();
    assert_eq!(dims(&t), (10, 50));
}

#[test]
fn crop_center_equal_to_current_size_succeeds() {
    let mut t = rgba_source(100, 50);
    t.crop_center(100, 50).unwrap();
    assert_eq!(dims(&t), (100, 50));
}

#[test]
fn crop_sequence_tracks_and_rejects() {
    // A 100x100 base cropped to 50x50 and then center-cropped to 20x20
    // tracks (20, 20); a further 30x30 center crop must fail.
    let mut t = rgba_source(100, 100);
    t.crop(10, 10, 50, 50).unwrap();
    t.crop_center(20, 20).unwrap();
    assert_eq!(dims(&t), (20, 20));
    assert_eq!(t.crop_center(30, 30), Err(TransformError::InvalidDimensions));
    assert_eq!(dims(&t), (20, 20));
}

#[test]
fn pad_adds_margins() {
    let mut t = rgba_source(100, 50);
    t.pad(1, 2, 3, 4, RgbaValue { red: 9, green: 9, blue: 9, alpha: 255 });
    assert_eq!(dims(&t), (103, 57));
}

#[test]
fn all_zero_pad_is_a_permitted_no_op() {
    let mut t = rgba_source(100, 50);
    t.pad(0, 0, 0, 0, RgbaValue { red: 0, green: 0, blue: 0, alpha: 0 });
    assert_eq!(dims(&t), (100, 50));
}

#[test]
fn flips_keep_dimensions() {
    let mut t = rgba_source(100, 50);
    t.flip_horizontal();
    t.flip_vertical();
    assert_eq!(dims(&t), (100, 50));
}

#[test]
fn rotations_swap_or_keep_dimensions() {
    let mut t = rgba_source(100, 50);
    t.rotate(RotationMode::CW90);
    assert_eq!(dims(&t), (50, 100));
    t.rotate(RotationMode::CW180);
    assert_eq!(dims(&t), (50, 100));
    t.rotate(RotationMode::CW270);
    assert_eq!(dims(&t), (100, 50));
}

#[test]
fn overlay_keeps_dimensions() {
    let mut t = rgba_source(100, 50);
    let other = rgba_source(10, 10);
    t.overlay(&other, 5, 5).unwrap();
    assert_eq!(dims(&t), (100, 50));
}

#[test]
fn overlay_anchor_must_lie_on_the_canvas() {
    let mut t = rgba_source(100, 50);
    let other = rgba_source(10, 10);
    assert_eq!(t.overlay(&other, -1, 0), Err(TransformError::OutOfBounds));
    assert_eq!(t.overlay(&other, 0, -1), Err(TransformError::OutOfBounds));
    assert_eq!(t.overlay(&other, 100, 0), Err(TransformError::OutOfBounds));
    assert_eq!(t.overlay(&other, 0, 50), Err(TransformError::OutOfBounds));
    t.overlay(&other, 99, 49).unwrap();
    assert_eq!(dims(&t), (100, 50));
}

#[test]
fn overlay_far_edge_may_leave_the_canvas() {
    let mut t = rgba_source(100, 50);
    let other = rgba_source(30, 30);
    // The anchor is on-canvas; the far edge reaches past it, which is
    // allowed and clipped per pixel at render time.
    t.overlay(&other, 90, 40).unwrap();
    assert_eq!(dims(&t), (100, 50));
}

#[test]
fn duplicate_is_independent_of_later_appends() {
    let mut t = rgba_source(100, 50);
    let copy = t.duplicate();
    t.scale(10, 10, None).unwrap();
    assert_eq!(dims(&t), (10, 10));
    assert_eq!(dims(&copy), (100, 50));
}

#[test]
fn error_messages_match_their_variants() {
    assert_eq!(TransformError::InvalidDimensions.message(), "Invalid dimensions");
    assert_eq!(TransformError::InvalidPixelBuffer.message(), "Invalid pixel buffer");
    assert_eq!(
        TransformError::OutOfBounds.message(),
        "Overlay image is completely outside the bounds of the base image"
    );
}
