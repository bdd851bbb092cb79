use upscaler::error::{PipelineError, ShapeError, SizePolicyError, Stage};
use upscaler::pipeline::{finish_image, prepare_image};
use upscaler::profile::{artifact_path, output_file_name, video_output_name, ModelInfo, ModelType};
use upscaler::raster::RgbRaster;
use upscaler::tensor::{to_tensor, NormalizationRange, TensorFormat};

fn profile(model_type: ModelType, scale: u32, window: u32, min_dim: Option<u32>) -> ModelInfo {
    ModelInfo {
        name: "test-model".to_string(),
        url: "local".to_string(),
        model_type,
        scale,
        window_size: window,
        description: "test".to_string(),
        category: "Test".to_string(),
        tensor_format: TensorFormat::NCHW,
        input_norm: NormalizationRange::ZeroOne,
        output_norm: NormalizationRange::ZeroOne,
        min_dimension: min_dim,
    }
}

fn gradient(w: u32, h: u32) -> RgbRaster {
    let mut data = Vec::new();
    for i in 0..(3 * w * h) {
        data.push((i % 251) as u8);
    }
    RgbRaster::new(w, h, data).unwrap()
}

#[test]
fn small_image_passes_through_unresized() {
    let img = gradient(6, 4);
    let p = prepare_image(&img, &profile(ModelType::Denoising, 1, 4, None), 512).unwrap();
    assert_eq!((p.working_width, p.working_height), (6, 4));
    // Width 6 pads to 8, height 4 is already a multiple.
    assert_eq!((p.padding.padded_width, p.padding.padded_height), (8, 4));
    assert_eq!((p.padding.pad_right, p.padding.pad_bottom), (2, 0));
    assert_eq!((p.tensor.width, p.tensor.height), (8, 4));
    assert_eq!(p.tensor.data.len(), 3 * 8 * 4);
}

#[test]
fn no_window_constraint_encodes_the_image_exactly() {
    // With window multiple 1 and no resize, the prepared tensor is
    // exactly the encoding of the input image.
    let img = gradient(5, 3);
    let p = prepare_image(&img, &profile(ModelType::Denoising, 1, 1, None), 512).unwrap();
    let direct = to_tensor(&img, TensorFormat::NCHW, NormalizationRange::ZeroOne);
    assert_eq!(p.tensor.data, direct.data);
    assert_eq!((p.padding.pad_right, p.padding.pad_bottom), (0, 0));
}

#[test]
fn large_image_is_resized_to_the_cap() {
    // 1000x300 under a cap of 512 works at 512x153; the resampler
    // must actually produce that size, padded to the window multiple.
    let img = gradient(1000, 300);
    let p = prepare_image(&img, &profile(ModelType::Upscaling, 4, 8, None), 512).unwrap();
    assert_eq!((p.working_width, p.working_height), (512, 153));
    assert_eq!((p.padding.padded_width, p.padding.padded_height), (512, 160));
    assert_eq!(p.tensor.data.len(), 3 * 512 * 160);
}

#[test]
fn zero_sized_image_fails_at_the_resize_stage() {
    let img = RgbRaster::new(0, 0, Vec::new()).unwrap();
    let e = prepare_image(&img, &profile(ModelType::Denoising, 1, 1, None), 512).unwrap_err();
    assert_eq!(e.stage, Stage::Resized);
    assert_eq!(
        e.error,
        PipelineError::SizePolicy(SizePolicyError::ZeroDimension)
    );
    assert_eq!(e.error.describe(), "invalid or zero input dimensions");
}

#[test]
fn reconstruction_undoes_the_preparation() {
    // Identity engine: feeding the prepared tensor straight back in
    // recovers the working image exactly (scale 1).
    let img = gradient(6, 4);
    let model = profile(ModelType::Denoising, 1, 4, None);
    let p = prepare_image(&img, &model, 512).unwrap();
    let out = finish_image(&p.tensor, &model, p.working_width, p.working_height).unwrap();
    assert_eq!((out.width, out.height), (img.width, img.height));
    assert_eq!(out.data, img.data);
}

#[test]
fn crop_uses_the_working_size_not_the_padded_size() {
    // The crop target is the pre-padding working size times the
    // scale; cropping by the padded size would keep the margin.
    let img = gradient(6, 4);
    let model = profile(ModelType::Denoising, 1, 4, None);
    let p = prepare_image(&img, &model, 512).unwrap();
    assert_eq!(p.tensor.width, 8);
    let out = finish_image(&p.tensor, &model, p.working_width, p.working_height).unwrap();
    assert_eq!(out.width, 6);
}

#[test]
fn undersized_engine_output_is_refused() {
    // A 4x4 output cannot be cropped to 4x4 times scale 2.
    let img = gradient(4, 4);
    let model = profile(ModelType::Upscaling, 2, 1, None);
    let p = prepare_image(&img, &model, 512).unwrap();
    let e = finish_image(&p.tensor, &model, p.working_width, p.working_height).unwrap_err();
    assert_eq!(e.stage, Stage::Cropped);
    assert!(matches!(
        e.error,
        PipelineError::Shape(ShapeError::CropExceedsSource { target: 8, available: 4 })
    ));
}

#[test]
fn unaddressable_working_buffer_is_refused() {
    // A tiny image lifted to an enormous minimum dimension would need
    // a working buffer no vector can hold.
    let img = gradient(2, 2);
    let model = profile(ModelType::Denoising, 1, 1, Some(u32::MAX));
    let e = prepare_image(&img, &model, 512).unwrap_err();
    assert_eq!(e.stage, Stage::Resized);
    assert!(matches!(
        e.error,
        PipelineError::Shape(ShapeError::BufferTooLarge { .. })
    ));
}

#[test]
fn minimum_dimension_forces_an_upscale() {
    let img = gradient(32, 32);
    let model = profile(ModelType::Denoising, 1, 8, Some(512));
    let p = prepare_image(&img, &model, 512).unwrap();
    assert_eq!((p.working_width, p.working_height), (512, 512));
}

#[test]
fn output_names_follow_the_model_family() {
    assert_eq!(
        output_file_name("frame_000001", ModelType::Upscaling, 4),
        "frame_000001_4x.png"
    );
    assert_eq!(
        output_file_name("photo", ModelType::Enhancement, 2),
        "photo_2x.png"
    );
    assert_eq!(
        output_file_name("photo", ModelType::Denoising, 1),
        "photo_denoised.png"
    );
    assert_eq!(
        output_file_name("photo", ModelType::Upscaling, 1),
        "photo_enhanced.png"
    );
}

#[test]
fn artifact_and_video_paths() {
    assert_eq!(artifact_path("RealESRGAN-4x"), "./models/RealESRGAN-4x.onnx");
    assert_eq!(video_output_name("clip"), "clip_upscaled.mp4");
}

#[test]
fn model_labels_show_the_scale_for_upscalers() {
    let m = profile(ModelType::Upscaling, 4, 8, None);
    assert_eq!(m.display_label(), "Test - test (4x)");
    let d = profile(ModelType::Denoising, 1, 8, None);
    assert_eq!(d.display_label(), "Test - test");
    assert_eq!(ModelType::Upscaling.label(), "Upscaling");
    assert_eq!(ModelType::Denoising.label(), "Denoising");
    assert_eq!(ModelType::Enhancement.label(), "Enhancement");
}
