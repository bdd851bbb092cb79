use upscaler::error::SizePolicyError;
use upscaler::geometry::resolve_working_size;

#[test]
fn caps_larger_side_preserving_aspect() {
    // A wide image is scaled down so its larger side equals the cap.
    assert_eq!(resolve_working_size(1000, 300, 0, 512), Ok((512, 153)));
}

#[test]
fn upscales_smaller_side_to_minimum() {
    // A tiny image is scaled up so its smaller side equals the minimum.
    assert_eq!(resolve_working_size(32, 32, 512, 512), Ok((512, 512)));
}

#[test]
fn within_bounds_is_unchanged() {
    assert_eq!(resolve_working_size(100, 200, 0, 512), Ok((100, 200)));
    assert_eq!(resolve_working_size(512, 512, 0, 512), Ok((512, 512)));
}

#[test]
fn tall_image_caps_height() {
    assert_eq!(resolve_working_size(300, 1000, 0, 512), Ok((153, 512)));
}

#[test]
fn zero_dimension_is_rejected() {
    assert_eq!(
        resolve_working_size(0, 100, 0, 512),
        Err(SizePolicyError::ZeroDimension)
    );
    assert_eq!(
        resolve_working_size(100, 0, 0, 512),
        Err(SizePolicyError::ZeroDimension)
    );
}

#[test]
fn effective_cap_never_sits_below_minimum() {
    // The cap is lifted to the minimum dimension before any scaling.
    assert_eq!(resolve_working_size(1000, 1000, 600, 512), Ok((600, 600)));
}

#[test]
fn extreme_aspect_ratio_vanishes() {
    // Scaling a 1-pixel-wide, very tall image to the cap drives the
    // width to zero, which no model can process.
    assert_eq!(
        resolve_working_size(1, 4_000_000_000, 0, 512),
        Err(SizePolicyError::TargetVanished)
    );
}

#[test]
fn upscale_past_the_dimension_type_is_rejected() {
    // Lifting a 1-pixel side to an enormous minimum drives the other
    // side past what a dimension can hold.
    assert_eq!(
        resolve_working_size(1, 4_000_000_000, 4_000_000_000, 0),
        Err(SizePolicyError::TargetTooLarge)
    );
}

#[test]
fn upscale_keeps_aspect() {
    // 100x30 with minimum 60: the smaller side reaches 60 exactly.
    assert_eq!(resolve_working_size(100, 30, 60, 512), Ok((200, 60)));
}
