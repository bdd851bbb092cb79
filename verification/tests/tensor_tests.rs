use upscaler::error::ShapeError;
use upscaler::raster::RgbRaster;
use upscaler::tensor::{
    decode_sample, encode_sample, from_tensor, to_tensor, NormalizationRange, Tensor,
    TensorFormat, SAMPLE_UNIT,
};

#[test]
fn encode_hits_the_range_ends() {
    assert_eq!(SAMPLE_UNIT, 510);
    assert_eq!(encode_sample(0, NormalizationRange::ZeroOne), 0);
    assert_eq!(encode_sample(255, NormalizationRange::ZeroOne), 510);
    assert_eq!(encode_sample(0, NormalizationRange::MinusOneOne), -510);
    assert_eq!(encode_sample(255, NormalizationRange::MinusOneOne), 510);
    // 128 / 255 in units of 1/510 is 256/510.
    assert_eq!(encode_sample(128, NormalizationRange::ZeroOne), 256);
}

#[test]
fn decode_clamps_out_of_range_samples() {
    assert_eq!(decode_sample(600, NormalizationRange::ZeroOne), 255);
    assert_eq!(decode_sample(-5, NormalizationRange::ZeroOne), 0);
    assert_eq!(decode_sample(600, NormalizationRange::MinusOneOne), 255);
    assert_eq!(decode_sample(-600, NormalizationRange::MinusOneOne), 0);
    assert_eq!(decode_sample(0, NormalizationRange::MinusOneOne), 127);
}

#[test]
fn normalization_round_trip_is_exact() {
    // decode(encode(v)) == v for every channel value and both ranges.
    for v in 0u8..=255 {
        for range in [NormalizationRange::ZeroOne, NormalizationRange::MinusOneOne] {
            assert_eq!(decode_sample(encode_sample(v, range), range), v);
        }
    }
}

/// A 2x1 image: pixel 0 is (10, 20, 30), pixel 1 is (40, 50, 60).
fn two_pixels() -> RgbRaster {
    RgbRaster::new(2, 1, vec![10, 20, 30, 40, 50, 60]).unwrap()
}

#[test]
fn channels_first_layout_orders_planes() {
    let t = to_tensor(
        &two_pixels(),
        TensorFormat::NCHW,
        NormalizationRange::ZeroOne,
    );
    assert_eq!((t.height, t.width), (1, 2));
    // One full plane per channel: R R, G G, B B, each doubled by the
    // zero-to-one encoding.
    assert_eq!(t.data, vec![20, 80, 40, 100, 60, 120]);
}

#[test]
fn channels_last_layout_interleaves() {
    let t = to_tensor(
        &two_pixels(),
        TensorFormat::NHWC,
        NormalizationRange::ZeroOne,
    );
    assert_eq!(t.data, vec![20, 40, 60, 80, 100, 120]);
}

#[test]
fn tensor_round_trip_recovers_the_image() {
    let img = two_pixels();
    for layout in [TensorFormat::NCHW, TensorFormat::NHWC] {
        for range in [NormalizationRange::ZeroOne, NormalizationRange::MinusOneOne] {
            let t = to_tensor(&img, layout, range);
            let back = from_tensor(&t, range);
            assert_eq!((back.width, back.height), (img.width, img.height));
            assert_eq!(back.data, img.data);
        }
    }
}

#[test]
fn from_parts_accepts_a_matching_shape() {
    let t = Tensor::from_parts(TensorFormat::NCHW, 1, 3, 1, 2, vec![0i32; 6]).unwrap();
    assert_eq!((t.height, t.width), (1, 2));
    let t = Tensor::from_parts(TensorFormat::NHWC, 1, 1, 2, 3, vec![0i32; 6]).unwrap();
    assert_eq!((t.height, t.width), (1, 2));
}

#[test]
fn from_parts_rejects_a_batch_other_than_one() {
    match Tensor::from_parts(TensorFormat::NCHW, 2, 3, 1, 2, vec![0i32; 12]) {
        Err(ShapeError::BatchNotOne { batch }) => assert_eq!(batch, 2),
        _ => panic!("expected a batch error"),
    }
}

#[test]
fn from_parts_rejects_a_channel_count_other_than_three() {
    match Tensor::from_parts(TensorFormat::NCHW, 1, 4, 1, 2, vec![0i32; 8]) {
        Err(ShapeError::ChannelsNotThree { channels }) => assert_eq!(channels, 4),
        _ => panic!("expected a channel error"),
    }
}

#[test]
fn from_parts_rejects_an_oversized_extent() {
    match Tensor::from_parts(TensorFormat::NCHW, 1, 3, 5_000_000_000, 2, vec![0i32; 6]) {
        Err(ShapeError::ExtentTooLarge { extent }) => assert_eq!(extent, 5_000_000_000),
        _ => panic!("expected an extent error"),
    }
}

#[test]
fn from_parts_rejects_a_short_buffer() {
    match Tensor::from_parts(TensorFormat::NCHW, 1, 3, 1, 2, vec![0i32; 5]) {
        Err(ShapeError::LengthMismatch { expected, actual }) => {
            assert_eq!(expected, 6);
            assert_eq!(actual, 5);
        }
        _ => panic!("expected a length error"),
    }
}
