//! Tensor codec: between RGB rasters and model input/output tensors.
//!
//! A model consumes one four-dimensional tensor, `[1, 3, H, W]` or
//! `[1, H, W, 3]` depending on its layout, with samples normalized to
//! `[0, 1]` or `[-1, 1]` depending on its declared range.  Samples are
//! held in fixed-point form: the integer `n` stands for the real
//! number `n / SAMPLE_UNIT`, so every mapping below is exact and a
//! decoded sample is recovered without loss.  The surrounding
//! application converts between this fixed-point form and the
//! engine's floating-point samples at the trust boundary.

use vstd::prelude::*;

use crate::error::ShapeError;
use crate::raster::RgbRaster;

verus! {

/// Memory ordering of the four tensor axes.
#[derive(Clone, Copy, Debug, PartialEq, Eq, Structural)]
pub enum TensorFormat {
    /// `[batch, channels, height, width]`
    NCHW,
    /// `[batch, height, width, channels]`
    NHWC,
}

/// The value range a model expects its samples normalized to.
#[derive(Clone, Copy, Debug, PartialEq, Eq, Structural)]
pub enum NormalizationRange {
    /// Samples span `[0, 1]`: a channel value `v` maps to `v / 255`.
    ZeroOne,
    /// Samples span `[-1, 1]`: a channel value `v` maps to
    /// `v / 127.5 - 1`.
    MinusOneOne,
}

/// Fixed-point scale: the sample value 1.0 in integer units.
///
/// 510 is the least common denominator of the two normalizations:
/// `v / 255 = 2v / 510` and `v / 127.5 - 1 = (4v - 510) / 510`.
pub const SAMPLE_UNIT: i32 = 510;

/// The fixed-point sample a channel value encodes to.
pub open spec fn spec_encode_sample(v: u8, range: NormalizationRange) -> i32 {
    match range {
        NormalizationRange::ZeroOne => (2 * (v as int)) as i32,
        NormalizationRange::MinusOneOne => (4 * (v as int) - 510) as i32,
    }
}

/// The channel value a fixed-point sample decodes to: the inverse
/// mapping, clamped to `[0, 255]` and truncated to an integer.
pub open spec fn spec_decode_sample(n: i32, range: NormalizationRange) -> u8 {
    match range {
        NormalizationRange::ZeroOne => if n <= 0 {
            0u8
        } else if n >= 510 {
            255u8
        } else {
            ((n as int) / 2) as u8
        },
        NormalizationRange::MinusOneOne => if n <= -510 {
            0u8
        } else if n >= 510 {
            255u8
        } else {
            (((n as int) + 510) / 4) as u8
        },
    }
}

/// Encode one channel value as a fixed-point sample.
pub fn encode_sample(v: u8, range: NormalizationRange) -> (n: i32)
    ensures
        n == spec_encode_sample(v, range),
        -510 <= n <= 510,
{
    match range {
        NormalizationRange::ZeroOne => 2 * (v as i32),
        NormalizationRange::MinusOneOne => 4 * (v as i32) - 510,
    }
}

/// Decode one fixed-point sample back to a channel value.
pub fn decode_sample(n: i32, range: NormalizationRange) -> (v: u8)
    ensures
        v == spec_decode_sample(n, range),
{
    match range {
        NormalizationRange::ZeroOne => {
            if n <= 0 {
                0
            } else if n >= 510 {
                255
            } else {
                (n / 2) as u8
            }
        },
        NormalizationRange::MinusOneOne => {
            if n <= -510 {
                0
            } else if n >= 510 {
                255
            } else {
                ((n + 510) / 4) as u8
            }
        },
    }
}

/// Normalization round-trip: decoding an encoded channel value
/// recovers it exactly, for every value and both ranges.
pub proof fn lemma_sample_round_trip(v: u8, range: NormalizationRange)
    ensures
        spec_decode_sample(spec_encode_sample(v, range), range) == v,
{
}

/// A four-dimensional tensor of fixed-point samples, batch 1 and
/// 3 channels, flattened in its layout's memory order.
#[derive(Debug)]
pub struct Tensor {
    pub layout: TensorFormat,
    pub height: u32,
    pub width: u32,
    pub data: Vec<i32>,
}

impl Tensor {
    /// The buffer holds exactly one sample per channel of every
    /// spatial position.
    pub open spec fn wf(&self) -> bool {
        self.data@.len() == 3 * (self.height as int) * (self.width as int)
    }

    /// The sample of channel `c` at row `y`, column `x`, wherever the
    /// layout places it.
    pub open spec fn at(&self, c: int, y: int, x: int) -> i32 {
        match self.layout {
            TensorFormat::NCHW => self.data@[(c * (self.height as int) + y) * (self.width as int)
                + x],
            TensorFormat::NHWC => self.data@[3 * (y * (self.width as int) + x) + c],
        }
    }

    /// The sample of channel `c` at row `y`, column `x`, read from
    /// the buffer.
    pub fn get(&self, c: u32, y: u32, x: u32) -> (n: i32)
        requires
            self.wf(),
            c < 3,
            y < self.height,
            x < self.width,
        ensures
            n == self.at(c as int, y as int, x as int),
    {
        let h = self.height;
        let w = self.width;
        // Binding the length pins the whole buffer, and with it every
        // index below, under `usize::MAX`.
        let n = self.data.len();
        proof {
            assert(0 <= ((c as int) * (h as int) + (y as int)) * (w as int) + (x as int) && ((
            c as int) * (h as int) + (y as int)) * (w as int) + (x as int) < 3 * (h as int) * (
            w as int) && (c as int) * (h as int) <= 3 * (h as int) * (w as int) && (c as int) * (
            h as int) + (y as int) <= 3 * (h as int) * (w as int) && ((c as int) * (
            h as int) + (y as int)) * (w as int) <= 3 * (h as int) * (w as int) && 0 <= 3 * ((
            y as int) * (w as int) + (x as int)) + (c as int) && 3 * ((y as int) * (w as int) + (
            x as int)) + (c as int) < 3 * (h as int) * (w as int) && (y as int) * (w as int) <= 3 * (
            h as int) * (w as int) && 3 * ((y as int) * (w as int) + (x as int)) <= 3 * (h as int)
                * (w as int)) by (nonlinear_arith)
                requires
                    c < 3,
                    y < h,
                    x < w,
                    0 <= c,
                    0 <= y,
                    0 <= x,
            ;
        }
        match self.layout {
            TensorFormat::NCHW => {
                let idx = (c as usize * h as usize + y as usize) * w as usize + x as usize;
                self.data[idx]
            },
            TensorFormat::NHWC => {
                let idx = 3 * (y as usize * w as usize + x as usize) + c as usize;
                self.data[idx]
            },
        }
    }

    /// Accept an engine-reported shape and flat buffer as a tensor.
    ///
    /// The four extents are taken in the engine's reported order for
    /// the given layout.  The batch must be 1 and the channel count 3;
    /// the spatial extents must fit `u32` and the buffer must hold
    /// exactly one sample per channel and position.
    pub fn from_parts(layout: TensorFormat, d0: u64, d1: u64, d2: u64, d3: u64, data: Vec<i32>) -> (r:
        Result<Tensor, ShapeError>)
        ensures
            ({
                let channels = if layout is NCHW {
                    d1
                } else {
                    d3
                };
                let h = if layout is NCHW {
                    d2
                } else {
                    d1
                };
                let w = if layout is NCHW {
                    d3
                } else {
                    d2
                };
                match r {
                    Ok(t) => {
                        &&& d0 == 1
                        &&& channels == 3
                        &&& h <= u32::MAX
                        &&& w <= u32::MAX
                        &&& data@.len() == 3 * h * w
                        &&& t.wf()
                        &&& t.layout == layout
                        &&& t.height == h
                        &&& t.width == w
                        &&& t.data == data
                    },
                    Err(e) => {
                        &&& !(d0 == 1 && channels == 3 && h <= u32::MAX && w <= u32::MAX
                            && data@.len() == 3 * h * w)
                        &&& (e == (ShapeError::BatchNotOne { batch: d0 }) <==> d0 != 1)
                        &&& (d0 == 1 && channels != 3 ==> e == (ShapeError::ChannelsNotThree {
                            channels,
                        }))
                        &&& (d0 == 1 && channels == 3 && (h > u32::MAX || w > u32::MAX) ==> e
                            matches ShapeError::ExtentTooLarge { .. })
                        &&& (d0 == 1 && channels == 3 && h <= u32::MAX && w <= u32::MAX ==> e == (
                        ShapeError::LengthMismatch { expected: (3 * h * w) as u128, actual: data@.len() as u128 }))
                    },
                }
            }),
    {
        let (channels, h, w) = match layout {
            TensorFormat::NCHW => (d1, d2, d3),
            TensorFormat::NHWC => (d3, d1, d2),
        };
        if d0 != 1 {
            return Err(ShapeError::BatchNotOne { batch: d0 });
        }
        if channels != 3 {
            return Err(ShapeError::ChannelsNotThree { channels });
        }
        if h > u32::MAX as u64 {
            return Err(ShapeError::ExtentTooLarge { extent: h });
        }
        if w > u32::MAX as u64 {
            return Err(ShapeError::ExtentTooLarge { extent: w });
        }
        proof {
            assert(3 * (h as int) * (w as int) < 0x100000000000000000000000000000000)
                by (nonlinear_arith)
                requires
                    h <= 0xffffffffu64,
                    w <= 0xffffffffu64,
            ;
        }
        let expected = 3 * (h as u128) * (w as u128);
        if data.len() as u128 != expected {
            return Err(ShapeError::LengthMismatch { expected, actual: data.len() as u128 });
        }
        Ok(Tensor { layout, height: h as u32, width: w as u32, data })
    }
}

/// `t` is the encoding of `img` in the given layout and range.
pub open spec fn encodes(t: Tensor, img: RgbRaster, layout: TensorFormat, range: NormalizationRange) -> bool {
    &&& t.wf()
    &&& t.layout == layout
    &&& t.height == img.height
    &&& t.width == img.width
    &&& forall|c: int, y: int, x: int|
        0 <= c < 3 && 0 <= y < img.height && 0 <= x < img.width ==> t.at(c, y, x)
            == spec_encode_sample(#[trigger] img.pix(x, y, c), range)
}

/// Encode a raster in `[1, H, W, 3]` order: channels vary fastest.
#[verifier::loop_isolation(false)]
fn encode_nhwc(img: &RgbRaster, range: NormalizationRange) -> (t: Tensor)
    requires
        img.wf(),
    ensures
        encodes(t, *img, TensorFormat::NHWC, range),
{
    let w = img.width;
    let h = img.height;
    let mut data: Vec<i32> = Vec::new();
    let mut y: u32 = 0;
    while y < h
        invariant
            y <= h,
            data@.len() == 3 * ((y as int) * (w as int)),
            forall|cc: int, yy: int, xx: int|
                0 <= cc < 3 && 0 <= yy < y && 0 <= xx < w ==> data@[3 * (yy * (w as int) + xx) + cc]
                    == spec_encode_sample(#[trigger] img.pix(xx, yy, cc), range),
        decreases h - y,
    {
        let mut x: u32 = 0;
        while x < w
            invariant
                x <= w,
                data@.len() == 3 * ((y as int) * (w as int) + (x as int)),
                forall|cc: int, yy: int, xx: int|
                    0 <= cc < 3 && 0 <= yy < y && 0 <= xx < w ==> data@[3 * (yy * (w as int) + xx)
                        + cc] == spec_encode_sample(#[trigger] img.pix(xx, yy, cc), range),
                forall|cc: int, xx: int|
                    0 <= cc < 3 && 0 <= xx < x ==> data@[3 * ((y as int) * (w as int) + xx) + cc]
                        == spec_encode_sample(#[trigger] img.pix(xx, y as int, cc), range),
            decreases w - x,
        {
            let v0 = encode_sample(img.get(x, y, 0), range);
            let v1 = encode_sample(img.get(x, y, 1), range);
            let v2 = encode_sample(img.get(x, y, 2), range);
            data.push(v0);
            data.push(v1);
            data.push(v2);
            proof {
                assert forall|cc: int, xx: int|
                    0 <= cc < 3 && 0 <= xx < x + 1 implies data@[3 * ((y as int) * (w as int) + xx)
                    + cc] == spec_encode_sample(#[trigger] img.pix(xx, y as int, cc), range) by {
                    if xx < x {
                        assert(3 * ((y as int) * (w as int) + xx) + cc < 3 * ((y as int) * (
                        w as int) + (x as int)));
                    }
                }
                assert forall|cc: int, yy: int, xx: int|
                    0 <= cc < 3 && 0 <= yy < y && 0 <= xx < w implies data@[3 * (yy * (w as int)
                    + xx) + cc] == spec_encode_sample(#[trigger] img.pix(xx, yy, cc), range) by {
                    assert(yy * (w as int) + xx < (y as int) * (w as int) + (x as int))
                        by (nonlinear_arith)
                        requires
                            0 <= xx < w as int,
                            0 <= yy < y as int,
                            0 <= x,
                    ;
                }
            }
            x = x + 1;
        }
        proof {
            assert forall|cc: int, yy: int, xx: int|
                0 <= cc < 3 && 0 <= yy < y + 1 && 0 <= xx < w implies data@[3 * (yy * (w as int)
                + xx) + cc] == spec_encode_sample(#[trigger] img.pix(xx, yy, cc), range) by {
                if yy < y {
                    assert(yy * (w as int) + xx < (y as int) * (w as int)) by (nonlinear_arith)
                        requires
                            0 <= xx < w as int,
                            0 <= yy < y as int,
                    ;
                }
            }
            assert(((y + 1) as int) * (w as int) == (y as int) * (w as int) + (w as int))
                by (nonlinear_arith);
        }
        y = y + 1;
    }
    let t = Tensor { layout: TensorFormat::NHWC, height: h, width: w, data };
    proof {
        assert(3 * ((h as int) * (w as int)) == 3 * (h as int) * (w as int)) by (nonlinear_arith);
        assert(t.wf());
        assert forall|c: int, y: int, x: int|
            0 <= c < 3 && 0 <= y < h && 0 <= x < w implies t.at(c, y, x) == spec_encode_sample(
            #[trigger] img.pix(x, y, c),
            range,
        ) by {
            assert(data@[3 * (y * (w as int) + x) + c] == spec_encode_sample(
                img.pix(x, y, c),
                range,
            ));
        }
    }
    t
}

/// Encode a raster in `[1, 3, H, W]` order: one full plane per
/// channel.
#[verifier::loop_isolation(false)]
fn encode_nchw(img: &RgbRaster, range: NormalizationRange) -> (t: Tensor)
    requires
        img.wf(),
    ensures
        encodes(t, *img, TensorFormat::NCHW, range),
{
    let w = img.width;
    let h = img.height;
    let mut data: Vec<i32> = Vec::new();
    let mut c: u32 = 0;
    proof {
        assert(((0int) * (h as int)) * (w as int) == 0) by (nonlinear_arith);
    }
    while c < 3
        invariant
            c <= 3,
            data@.len() == ((c as int) * (h as int)) * (w as int),
            forall|cc: int, yy: int, xx: int|
                0 <= cc < c && 0 <= yy < h && 0 <= xx < w ==> data@[(cc * (h as int) + yy) * (
                w as int) + xx] == spec_encode_sample(#[trigger] img.pix(xx, yy, cc), range),
        decreases 3 - c,
    {
        let mut y: u32 = 0;
        while y < h
            invariant
                y <= h,
                data@.len() == ((c as int) * (h as int) + (y as int)) * (w as int),
                forall|cc: int, yy: int, xx: int|
                    0 <= cc < c && 0 <= yy < h && 0 <= xx < w ==> data@[(cc * (h as int) + yy) * (
                    w as int) + xx] == spec_encode_sample(#[trigger] img.pix(xx, yy, cc), range),
                forall|yy: int, xx: int|
                    0 <= yy < y && 0 <= xx < w ==> data@[((c as int) * (h as int) + yy) * (w as int)
                        + xx] == spec_encode_sample(#[trigger] img.pix(xx, yy, c as int), range),
            decreases h - y,
        {
            let mut x: u32 = 0;
            while x < w
                invariant
                    x <= w,
                    data@.len() == ((c as int) * (h as int) + (y as int)) * (w as int) + (x as int),
                    forall|cc: int, yy: int, xx: int|
                        0 <= cc < c && 0 <= yy < h && 0 <= xx < w ==> data@[(cc * (h as int) + yy)
                            * (w as int) + xx] == spec_encode_sample(
                            #[trigger] img.pix(xx, yy, cc),
                            range,
                        ),
                    forall|yy: int, xx: int|
                        0 <= yy < y && 0 <= xx < w ==> data@[((c as int) * (h as int) + yy) * (
                        w as int) + xx] == spec_encode_sample(
                            #[trigger] img.pix(xx, yy, c as int),
                            range,
                        ),
                    forall|xx: int|
                        0 <= xx < x ==> data@[((c as int) * (h as int) + (y as int)) * (w as int)
                            + xx] == spec_encode_sample(
                            #[trigger] img.pix(xx, y as int, c as int),
                            range,
                        ),
                decreases w - x,
            {
                let v = encode_sample(img.get(x, y, c), range);
                data.push(v);
                proof {
                    assert forall|yy: int, xx: int|
                        0 <= yy < y && 0 <= xx < w implies data@[((c as int) * (h as int) + yy) * (
                        w as int) + xx] == spec_encode_sample(
                            #[trigger] img.pix(xx, yy, c as int),
                            range,
                        ) by {
                        assert((((c as int) * (h as int)) + yy) * (w as int) + xx < ((c as int) * (
                        h as int) + (y as int)) * (w as int) + (x as int)) by (nonlinear_arith)
                            requires
                                0 <= xx < w as int,
                                0 <= yy < y as int,
                                0 <= x,
                                0 <= c,
                        ;
                    }
                    assert forall|cc: int, yy: int, xx: int|
                        0 <= cc < c && 0 <= yy < h && 0 <= xx < w implies data@[(cc * (h as int)
                        + yy) * (w as int) + xx] == spec_encode_sample(
                            #[trigger] img.pix(xx, yy, cc),
                            range,
                        ) by {
                        assert((cc * (h as int) + yy) * (w as int) + xx < ((c as int) * (h as int)
                            + (y as int)) * (w as int) + (x as int)) by (nonlinear_arith)
                            requires
                                0 <= xx < w as int,
                                0 <= yy < h as int,
                                0 <= cc < c as int,
                                0 <= y,
                                0 <= x,
                        ;
                    }
                }
                x = x + 1;
            }
            proof {
                assert(((c as int) * (h as int) + ((y + 1) as int)) * (w as int) == ((c as int) * (
                h as int) + (y as int)) * (w as int) + (w as int)) by (nonlinear_arith);
            }
            y = y + 1;
        }
        proof {
            assert forall|cc: int, yy: int, xx: int|
                0 <= cc < c + 1 && 0 <= yy < h && 0 <= xx < w implies data@[(cc * (h as int) + yy)
                * (w as int) + xx] == spec_encode_sample(#[trigger] img.pix(xx, yy, cc), range) by {
                if cc == c as int {
                    assert(data@[((c as int) * (h as int) + yy) * (w as int) + xx]
                        == spec_encode_sample(img.pix(xx, yy, c as int), range));
                }
            }
            assert((((c + 1) as int) * (h as int)) * (w as int) == ((c as int) * (h as int) + (
            h as int)) * (w as int)) by (nonlinear_arith);
        }
        c = c + 1;
    }
    let t = Tensor { layout: TensorFormat::NCHW, height: h, width: w, data };
    proof {
        assert((3 * (h as int)) * (w as int) == 3 * (h as int) * (w as int)) by (nonlinear_arith);
        assert(t.wf());
        assert forall|c: int, y: int, x: int|
            0 <= c < 3 && 0 <= y < h && 0 <= x < w implies t.at(c, y, x) == spec_encode_sample(
            #[trigger] img.pix(x, y, c),
            range,
        ) by {
            assert(data@[(c * (h as int) + y) * (w as int) + x] == spec_encode_sample(
                img.pix(x, y, c),
                range,
            ));
        }
    }
    t
}

/// Encode a raster as the model input tensor for the given layout and
/// normalization range.
pub fn to_tensor(img: &RgbRaster, layout: TensorFormat, range: NormalizationRange) -> (t: Tensor)
    requires
        img.wf(),
    ensures
        encodes(t, *img, layout, range),
{
    match layout {
        TensorFormat::NCHW => encode_nchw(img, range),
        TensorFormat::NHWC => encode_nhwc(img, range),
    }
}

/// Decode a model output tensor back into a raster, clamping each
/// sample into the valid channel range.
#[verifier::loop_isolation(false)]
pub fn from_tensor(t: &Tensor, range: NormalizationRange) -> (img: RgbRaster)
    requires
        t.wf(),
    ensures
        decodes_to(img, *t, range),
{
    let w = t.width;
    let h = t.height;
    let mut data: Vec<u8> = Vec::new();
    let mut y: u32 = 0;
    while y < h
        invariant
            y <= h,
            data@.len() == 3 * ((y as int) * (w as int)),
            forall|cc: int, yy: int, xx: int|
                0 <= cc < 3 && 0 <= yy < y && 0 <= xx < w ==> data@[3 * (yy * (w as int) + xx) + cc]
                    == spec_decode_sample(#[trigger] t.at(cc, yy, xx), range),
        decreases h - y,
    {
        let mut x: u32 = 0;
        while x < w
            invariant
                x <= w,
                data@.len() == 3 * ((y as int) * (w as int) + (x as int)),
                forall|cc: int, yy: int, xx: int|
                    0 <= cc < 3 && 0 <= yy < y && 0 <= xx < w ==> data@[3 * (yy * (w as int) + xx)
                        + cc] == spec_decode_sample(#[trigger] t.at(cc, yy, xx), range),
                forall|cc: int, xx: int|
                    0 <= cc < 3 && 0 <= xx < x ==> data@[3 * ((y as int) * (w as int) + xx) + cc]
                        == spec_decode_sample(#[trigger] t.at(cc, y as int, xx), range),
            decreases w - x,
        {
            let v0 = decode_sample(t.get(0, y, x), range);
            let v1 = decode_sample(t.get(1, y, x), range);
            let v2 = decode_sample(t.get(2, y, x), range);
            data.push(v0);
            data.push(v1);
            data.push(v2);
            proof {
                assert forall|cc: int, xx: int|
                    0 <= cc < 3 && 0 <= xx < x + 1 implies data@[3 * ((y as int) * (w as int) + xx)
                    + cc] == spec_decode_sample(#[trigger] t.at(cc, y as int, xx), range) by {
                    if xx < x {
                        assert(3 * ((y as int) * (w as int) + xx) + cc < 3 * ((y as int) * (
                        w as int) + (x as int)));
                    }
                }
                assert forall|cc: int, yy: int, xx: int|
                    0 <= cc < 3 && 0 <= yy < y && 0 <= xx < w implies data@[3 * (yy * (w as int)
                    + xx) + cc] == spec_decode_sample(#[trigger] t.at(cc, yy, xx), range) by {
                    assert(yy * (w as int) + xx < (y as int) * (w as int) + (x as int))
                        by (nonlinear_arith)
                        requires
                            0 <= xx < w as int,
                            0 <= yy < y as int,
                            0 <= x,
                    ;
                }
            }
            x = x + 1;
        }
        proof {
            assert(((y + 1) as int) * (w as int) == (y as int) * (w as int) + (w as int))
                by (nonlinear_arith);
        }
        y = y + 1;
    }
    let img = RgbRaster { width: w, height: h, data };
    proof {
        assert(3 * ((h as int) * (w as int)) == 3 * (w as int) * (h as int)) by (nonlinear_arith);
        assert(img.wf());
        assert forall|c: int, y: int, x: int|
            0 <= c < 3 && 0 <= y < h && 0 <= x < w implies img.pix(x, y, c) == spec_decode_sample(
            #[trigger] t.at(c, y, x),
            range,
        ) by {
            assert(data@[3 * (y * (w as int) + x) + c] == spec_decode_sample(t.at(c, y, x), range));
        }
    }
    img
}

/// Tensor round-trip: decoding the encoding of a raster recovers it
/// pixel for pixel, in either layout and either range.
pub proof fn lemma_tensor_round_trip(
    img: RgbRaster,
    t: Tensor,
    out: RgbRaster,
    layout: TensorFormat,
    range: NormalizationRange,
)
    requires
        img.wf(),
        encodes(t, img, layout, range),
        decodes_to(out, t, range),
    ensures
        out.width == img.width,
        out.height == img.height,
        forall|x: int, y: int, c: int|
            0 <= x < img.width && 0 <= y < img.height && 0 <= c < 3 ==> out.pix(x, y, c)
                == #[trigger] img.pix(x, y, c),
{
    assert forall|x: int, y: int, c: int|
        0 <= x < img.width && 0 <= y < img.height && 0 <= c < 3 implies out.pix(x, y, c)
        == #[trigger] img.pix(x, y, c) by {
        let n = t.at(c, y, x);
        assert(n == spec_encode_sample(img.pix(x, y, c), range));
        assert(out.pix(x, y, c) == spec_decode_sample(n, range));
        lemma_sample_round_trip(img.pix(x, y, c), range);
    }
}

/// `img` is the decoding of `t` in the given range.
pub open spec fn decodes_to(img: RgbRaster, t: Tensor, range: NormalizationRange) -> bool {
    &&& img.wf()
    &&& img.height == t.height
    &&& img.width == t.width
    &&& forall|c: int, y: int, x: int|
        0 <= c < 3 && 0 <= y < t.height && 0 <= x < t.width ==> img.pix(x, y, c)
            == spec_decode_sample(#[trigger] t.at(c, y, x), range)
}

} // verus!
