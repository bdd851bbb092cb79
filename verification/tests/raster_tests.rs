use upscaler::error::ShapeError;
use upscaler::raster::{crop_top_left, pad_to_multiple, reflect_coord, RgbRaster};

/// A 3x2 test image whose every byte is distinct: pixel (x, y) holds
/// channels (10*(y*3+x), 10*(y*3+x)+1, 10*(y*3+x)+2).
fn small_image() -> RgbRaster {
    let mut data = Vec::new();
    for p in 0u8..6 {
        data.push(10 * p);
        data.push(10 * p + 1);
        data.push(10 * p + 2);
    }
    RgbRaster::new(3, 2, data).unwrap()
}

fn pixel(img: &RgbRaster, x: u32, y: u32) -> (u8, u8, u8) {
    (img.get(x, y, 0), img.get(x, y, 1), img.get(x, y, 2))
}

#[test]
fn new_rejects_wrong_length() {
    match RgbRaster::new(2, 2, vec![0u8; 11]) {
        Err(ShapeError::LengthMismatch { expected, actual }) => {
            assert_eq!(expected, 12);
            assert_eq!(actual, 11);
        }
        other => panic!("expected a length mismatch, got {:?}", other.is_ok()),
    }
}

#[test]
fn padding_reaches_next_multiple() {
    let img = small_image();
    let (padded, desc) = pad_to_multiple(&img, 4);
    assert_eq!((padded.width, padded.height), (4, 4));
    assert_eq!((desc.padded_width, desc.padded_height), (4, 4));
    assert_eq!((desc.pad_right, desc.pad_bottom), (1, 2));
    assert_eq!(padded.width % 4, 0);
    assert_eq!(padded.height % 4, 0);
    assert!(padded.width >= img.width && padded.height >= img.height);
    assert_eq!(padded.data.len(), 3 * 4 * 4);
}

#[test]
fn padding_mirrors_the_edge() {
    let img = small_image();
    let (padded, _) = pad_to_multiple(&img, 4);
    // The original region is untouched.
    for y in 0..2 {
        for x in 0..3 {
            assert_eq!(pixel(&padded, x, y), pixel(&img, x, y));
        }
    }
    // The first out-of-bounds column repeats the edge column:
    // reflect(3, 3) = 3 - 1 - (3 - 3) = 2.
    assert_eq!(reflect_coord(3, 3), 2);
    assert_eq!(pixel(&padded, 3, 0), pixel(&img, 2, 0));
    // Row 2 repeats the last row; row 3 clamps to the first.
    assert_eq!(reflect_coord(2, 2), 1);
    assert_eq!(reflect_coord(3, 2), 0);
    assert_eq!(pixel(&padded, 0, 2), pixel(&img, 0, 1));
    assert_eq!(pixel(&padded, 0, 3), pixel(&img, 0, 0));
    // A corner mirrors both axes.
    assert_eq!(pixel(&padded, 3, 2), pixel(&img, 2, 1));
    assert_eq!(pixel(&padded, 3, 3), pixel(&img, 2, 0));
}

#[test]
fn multiple_one_pads_nothing() {
    let img = small_image();
    let (padded, desc) = pad_to_multiple(&img, 1);
    assert_eq!((padded.width, padded.height), (3, 2));
    assert_eq!((desc.pad_right, desc.pad_bottom), (0, 0));
    assert_eq!(padded.data, img.data);
}

#[test]
fn exact_multiple_pads_nothing() {
    let img = small_image();
    let (padded, desc) = pad_to_multiple(&img, 3);
    // Width 3 is already a multiple of 3; height 2 pads to 3.
    assert_eq!((padded.width, padded.height), (3, 3));
    assert_eq!((desc.pad_right, desc.pad_bottom), (0, 1));
}

#[test]
fn crop_recovers_the_padded_image() {
    // Padding then cropping back to the original size is the identity.
    let img = small_image();
    let (padded, _) = pad_to_multiple(&img, 4);
    let cropped = crop_top_left(&padded, img.width, img.height);
    assert_eq!((cropped.width, cropped.height), (img.width, img.height));
    assert_eq!(cropped.data, img.data);
}

#[test]
fn crop_takes_the_top_left_region() {
    let img = small_image();
    let cropped = crop_top_left(&img, 2, 1);
    assert_eq!((cropped.width, cropped.height), (2, 1));
    assert_eq!(cropped.data, vec![0, 1, 2, 10, 11, 12]);
}
