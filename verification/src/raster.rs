//! Interleaved 8-bit RGB rasters, with window padding and cropping.
//!
//! Attention-window models only accept spatial dimensions divisible by
//! a fixed multiple.  An image is extended on its right and bottom
//! edge to the next multiple before inference, and the inference
//! output is cropped back to the scale-adjusted unpadded size.  The
//! extension mirrors in-bounds pixels, so no hard synthetic boundary
//! enters the model's receptive field.

use vstd::arithmetic::div_mod::{
    lemma_div_is_ordered, lemma_div_pos_is_pos, lemma_fundamental_div_mod,
    lemma_fundamental_div_mod_converse, lemma_mod_bound, lemma_mod_multiples_basic,
};
use vstd::prelude::*;

use crate::error::ShapeError;

verus! {

/// An image as a flat row-major buffer of `width * height` RGB
/// triples.
#[derive(Debug)]
pub struct RgbRaster {
    pub width: u32,
    pub height: u32,
    pub data: Vec<u8>,
}

impl RgbRaster {
    /// The buffer holds exactly one byte per channel of every pixel.
    pub open spec fn wf(&self) -> bool {
        self.data@.len() == 3 * (self.width as int) * (self.height as int)
    }

    /// Channel `c` of the pixel at column `x`, row `y`.
    pub open spec fn pix(&self, x: int, y: int, c: int) -> u8 {
        self.data@[3 * (y * (self.width as int) + x) + c]
    }

    /// Wrap a flat buffer whose length matches the declared extents.
    pub fn new(width: u32, height: u32, data: Vec<u8>) -> (r: Result<RgbRaster, ShapeError>)
        ensures
            r matches Ok(img) ==> img.wf() && img.width == width && img.height == height && img.data
                == data,
            r matches Err(e) ==> 3 * (width as int) * (height as int) != data@.len() && e == (
            ShapeError::LengthMismatch {
                expected: (3 * (width as int) * (height as int)) as u128,
                actual: data@.len() as u128,
            }),
    {
        proof {
            assert(3 * (width as int) * (height as int) < 0x100000000000000000000000000000000)
                by (nonlinear_arith)
                requires
                    width < 0x100000000,
                    height < 0x100000000,
            ;
        }
        let expected = 3 * (width as u128) * (height as u128);
        if data.len() as u128 == expected {
            Ok(RgbRaster { width, height, data })
        } else {
            Err(ShapeError::LengthMismatch { expected, actual: data.len() as u128 })
        }
    }

    /// Channel `c` of the pixel at `(x, y)`, read from the buffer.
    pub fn get(&self, x: u32, y: u32, c: u32) -> (v: u8)
        requires
            self.wf(),
            x < self.width,
            y < self.height,
            c < 3,
        ensures
            v == self.pix(x as int, y as int, c as int),
    {
        // Binding the length pins the whole buffer, and with it every
        // index below, under `usize::MAX`.
        let n = self.data.len();
        proof {
            assert((y as int) * (self.width as int) + (x as int) < (self.width as int) * (
            self.height as int) && 0 <= (y as int) * (self.width as int) + (x as int)
                && 3 * ((y as int) * (self.width as int) + (x as int)) + (c as int) < 3 * (
            self.width as int) * (self.height as int)) by (nonlinear_arith)
                requires
                    x < self.width,
                    y < self.height,
                    c < 3,
            ;
        }
        let idx = 3 * (y as usize * self.width as usize + x as usize) + c as usize;
        self.data[idx]
    }
}

/// Mirror an out-of-bounds coordinate back into `[0, n)`: a
/// coordinate `i >= n` reads the pixel `n - 1 - (i - n)`, clamped at
/// the opposite edge.
pub open spec fn reflect(i: int, n: int) -> int {
    if i < n {
        i
    } else if i - n < n - 1 {
        n - 1 - (i - n)
    } else {
        0
    }
}

/// The smallest multiple of `m` that is at least `d`.
pub open spec fn padded_dim(d: int, m: int) -> int
    recommends
        m >= 1,
{
    ((d + m - 1) / m) * m
}

/// `padded_dim` is divisible by `m` and lies in `[d, d + m)`.
pub proof fn lemma_padded_dim(d: int, m: int)
    requires
        d >= 0,
        m >= 1,
    ensures
        padded_dim(d, m) % m == 0,
        padded_dim(d, m) >= d,
        padded_dim(d, m) < d + m,
    decreases 0int,
{
    let q = (d + m - 1) / m;
    lemma_fundamental_div_mod(d + m - 1, m);
    lemma_mod_multiples_basic(q, m);
    let r = (d + m - 1) % m;
    assert(d + m - 1 == q * m + r);
    assert(padded_dim(d, m) == q * m);
}

/// Mirror an out-of-bounds coordinate into the valid range.
pub fn reflect_coord(i: u32, n: u32) -> (r: u32)
    requires
        n >= 1,
    ensures
        r as int == reflect(i as int, n as int),
        r < n,
{
    if i < n {
        i
    } else if i - n < n - 1 {
        n - 1 - (i - n)
    } else {
        0
    }
}

/// How much padding a source size received on its right and bottom
/// edge, and the resulting canvas size.
#[derive(Clone, Copy, Debug, PartialEq, Eq, Structural)]
pub struct PaddingDescriptor {
    pub padded_width: u32,
    pub padded_height: u32,
    pub pad_right: u32,
    pub pad_bottom: u32,
}

/// The byte that edge-reflection padding places at `(x, y)`, channel
/// `c`, of the padded canvas.
pub open spec fn pad_cell(img: RgbRaster, x: int, y: int, c: int) -> u8 {
    img.pix(reflect(x, img.width as int), reflect(y, img.height as int), c)
}

/// `p` is the edge-reflection padding of `img` to the next multiple
/// of `m`.
pub open spec fn is_pad_of(p: RgbRaster, img: RgbRaster, m: u32) -> bool {
    &&& p.wf()
    &&& p.width as int == padded_dim(img.width as int, m as int)
    &&& p.height as int == padded_dim(img.height as int, m as int)
    &&& forall|x: int, y: int, c: int|
        0 <= x < p.width && 0 <= y < p.height && 0 <= c < 3 ==> p.pix(x, y, c) == #[trigger] pad_cell(
            img,
            x,
            y,
            c,
        )
}

/// `cr` is the top-left `tw` by `th` region of `src`.
pub open spec fn is_crop_of(cr: RgbRaster, src: RgbRaster, tw: u32, th: u32) -> bool {
    &&& cr.wf()
    &&& cr.width == tw
    &&& cr.height == th
    &&& forall|x: int, y: int, c: int|
        0 <= x < tw && 0 <= y < th && 0 <= c < 3 ==> cr.pix(x, y, c) == #[trigger] src.pix(x, y, c)
}

/// Pad an image to the next multiple of `multiple` on both axes,
/// filling the new right and bottom margin by edge reflection.
///
/// The returned descriptor records the canvas size and the margin
/// widths.  When the dimensions are already multiples the canvas
/// equals the image and both margins are zero.
#[verifier::loop_isolation(false)]
pub fn pad_to_multiple(img: &RgbRaster, multiple: u32) -> (r: (RgbRaster, PaddingDescriptor))
    requires
        img.wf(),
        img.width >= 1,
        img.height >= 1,
        multiple >= 1,
        padded_dim(img.width as int, multiple as int) <= u32::MAX,
        padded_dim(img.height as int, multiple as int) <= u32::MAX,
    ensures
        is_pad_of(r.0, *img, multiple),
        r.0.width as int % multiple as int == 0,
        r.0.height as int % multiple as int == 0,
        img.width <= r.0.width < img.width + multiple,
        img.height <= r.0.height < img.height + multiple,
        r.1 == (PaddingDescriptor {
            padded_width: r.0.width,
            padded_height: r.0.height,
            pad_right: (r.0.width - img.width) as u32,
            pad_bottom: (r.0.height - img.height) as u32,
        }),
{
    let w = img.width;
    let h = img.height;
    proof {
        lemma_padded_dim(w as int, multiple as int);
        lemma_padded_dim(h as int, multiple as int);
    }
    let pw = (((w as u64 + multiple as u64 - 1) / multiple as u64) * multiple as u64) as u32;
    let ph = (((h as u64 + multiple as u64 - 1) / multiple as u64) * multiple as u64) as u32;
    let mut data: Vec<u8> = Vec::new();
    let mut y: u32 = 0;
    while y < ph
        invariant
            y <= ph,
            data@.len() == 3 * ((y as int) * (pw as int)),
            forall|xx: int, yy: int, cc: int|
                0 <= xx < pw && 0 <= yy < y && 0 <= cc < 3 ==> data@[3 * (yy * (pw as int) + xx)
                    + cc] == #[trigger] pad_cell(*img, xx, yy, cc),
        decreases ph - y,
    {
        let sy = reflect_coord(y, h);
        let mut x: u32 = 0;
        while x < pw
            invariant
                x <= pw,
                data@.len() == 3 * ((y as int) * (pw as int) + (x as int)),
                forall|xx: int, yy: int, cc: int|
                    0 <= xx < pw && 0 <= yy < y && 0 <= cc < 3 ==> data@[3 * (yy * (pw as int) + xx)
                        + cc] == #[trigger] pad_cell(*img, xx, yy, cc),
                forall|xx: int, cc: int|
                    0 <= xx < x && 0 <= cc < 3 ==> data@[3 * ((y as int) * (pw as int) + xx) + cc]
                        == #[trigger] pad_cell(*img, xx, y as int, cc),
            decreases pw - x,
        {
            let sx = reflect_coord(x, w);
            let v0 = img.get(sx, sy, 0);
            let v1 = img.get(sx, sy, 1);
            let v2 = img.get(sx, sy, 2);
            data.push(v0);
            data.push(v1);
            data.push(v2);
            proof {
                assert forall|xx: int, cc: int|
                    0 <= xx < x + 1 && 0 <= cc < 3 implies data@[3 * ((y as int) * (pw as int) + xx)
                    + cc] == #[trigger] pad_cell(*img, xx, y as int, cc) by {
                    if xx < x {
                        assert(3 * ((y as int) * (pw as int) + xx) + cc < 3 * ((y as int) * (
                        pw as int) + (x as int)));
                    }
                }
                assert forall|xx: int, yy: int, cc: int|
                    0 <= xx < pw && 0 <= yy < y && 0 <= cc < 3 implies data@[3 * (yy * (pw as int)
                    + xx) + cc] == #[trigger] pad_cell(*img, xx, yy, cc) by {
                    assert(yy * (pw as int) + xx < (y as int) * (pw as int) + (x as int))
                        by (nonlinear_arith)
                        requires
                            0 <= xx < pw as int,
                            0 <= yy < y as int,
                            0 <= x,
                    ;
                }
            }
            x = x + 1;
        }
        proof {
            assert forall|xx: int, yy: int, cc: int|
                0 <= xx < pw && 0 <= yy < y + 1 && 0 <= cc < 3 implies data@[3 * (yy * (pw as int)
                + xx) + cc] == #[trigger] pad_cell(*img, xx, yy, cc) by {
                if yy < y {
                    assert((yy * (pw as int) + xx) < (y as int) * (pw as int)) by (nonlinear_arith)
                        requires
                            0 <= xx < pw as int,
                            0 <= yy < y as int,
                    ;
                }
            }
            assert(((y + 1) as int) * (pw as int) == (y as int) * (pw as int) + (pw as int))
                by (nonlinear_arith);
        }
        y = y + 1;
    }
    let padded = RgbRaster { width: pw, height: ph, data };
    proof {
        assert(3 * ((ph as int) * (pw as int)) == 3 * (pw as int) * (ph as int))
            by (nonlinear_arith);
        assert(padded.wf());
        assert forall|x: int, y: int, c: int|
            0 <= x < padded.width && 0 <= y < padded.height && 0 <= c < 3 implies padded.pix(
            x,
            y,
            c,
        ) == #[trigger] pad_cell(*img, x, y, c) by {
            assert(data@[3 * (y * (pw as int) + x) + c] == pad_cell(*img, x, y, c));
        }
    }
    let desc = PaddingDescriptor {
        padded_width: pw,
        padded_height: ph,
        pad_right: pw - w,
        pad_bottom: ph - h,
    };
    (padded, desc)
}

/// Crop an image to its top-left `tw` by `th` region, discarding the
/// right and bottom margin.
#[verifier::loop_isolation(false)]
pub fn crop_top_left(src: &RgbRaster, tw: u32, th: u32) -> (r: RgbRaster)
    requires
        src.wf(),
        tw <= src.width,
        th <= src.height,
    ensures
        is_crop_of(r, *src, tw, th),
{
    let mut data: Vec<u8> = Vec::new();
    let mut y: u32 = 0;
    while y < th
        invariant
            y <= th,
            data@.len() == 3 * ((y as int) * (tw as int)),
            forall|xx: int, yy: int, cc: int|
                0 <= xx < tw && 0 <= yy < y && 0 <= cc < 3 ==> data@[3 * (yy * (tw as int) + xx)
                    + cc] == #[trigger] src.pix(xx, yy, cc),
        decreases th - y,
    {
        let mut x: u32 = 0;
        while x < tw
            invariant
                x <= tw,
                data@.len() == 3 * ((y as int) * (tw as int) + (x as int)),
                forall|xx: int, yy: int, cc: int|
                    0 <= xx < tw && 0 <= yy < y && 0 <= cc < 3 ==> data@[3 * (yy * (tw as int) + xx)
                        + cc] == #[trigger] src.pix(xx, yy, cc),
                forall|xx: int, cc: int|
                    0 <= xx < x && 0 <= cc < 3 ==> data@[3 * ((y as int) * (tw as int) + xx) + cc]
                        == #[trigger] src.pix(xx, y as int, cc),
            decreases tw - x,
        {
            let v0 = src.get(x, y, 0);
            let v1 = src.get(x, y, 1);
            let v2 = src.get(x, y, 2);
            data.push(v0);
            data.push(v1);
            data.push(v2);
            proof {
                assert forall|xx: int, cc: int|
                    0 <= xx < x + 1 && 0 <= cc < 3 implies data@[3 * ((y as int) * (tw as int) + xx)
                    + cc] == #[trigger] src.pix(xx, y as int, cc) by {
                    if xx < x {
                        assert(3 * ((y as int) * (tw as int) + xx) + cc < 3 * ((y as int) * (
                        tw as int) + (x as int)));
                    }
                }
                assert forall|xx: int, yy: int, cc: int|
                    0 <= xx < tw && 0 <= yy < y && 0 <= cc < 3 implies data@[3 * (yy * (tw as int)
                    + xx) + cc] == #[trigger] src.pix(xx, yy, cc) by {
                    assert(yy * (tw as int) + xx < (y as int) * (tw as int) + (x as int))
                        by (nonlinear_arith)
                        requires
                            0 <= xx < tw as int,
                            0 <= yy < y as int,
                            0 <= x,
                    ;
                }
            }
            x = x + 1;
        }
        proof {
            assert forall|xx: int, yy: int, cc: int|
                0 <= xx < tw && 0 <= yy < y + 1 && 0 <= cc < 3 implies data@[3 * (yy * (tw as int)
                + xx) + cc] == #[trigger] src.pix(xx, yy, cc) by {
                if yy < y {
                    assert((yy * (tw as int) + xx) < (y as int) * (tw as int)) by (nonlinear_arith)
                        requires
                            0 <= xx < tw as int,
                            0 <= yy < y as int,
                    ;
                }
            }
            assert(((y + 1) as int) * (tw as int) == (y as int) * (tw as int) + (tw as int))
                by (nonlinear_arith);
        }
        y = y + 1;
    }
    let cropped = RgbRaster { width: tw, height: th, data };
    proof {
        assert(3 * ((th as int) * (tw as int)) == 3 * (tw as int) * (th as int))
            by (nonlinear_arith);
        assert(cropped.wf());
        assert forall|x: int, y: int, c: int|
            0 <= x < tw && 0 <= y < th && 0 <= c < 3 implies cropped.pix(x, y, c)
            == #[trigger] src.pix(x, y, c) by {
            assert(data@[3 * (y * (tw as int) + x) + c] == src.pix(x, y, c));
        }
    }
    cropped
}

/// Two well-formed rasters of the same size that agree on every
/// channel of every pixel hold the very same buffer: every buffer
/// index is channel `i % 3` of the pixel `i / 3`.
pub proof fn lemma_pix_equality_extends(a: RgbRaster, b: RgbRaster)
    requires
        a.wf(),
        b.wf(),
        a.width == b.width,
        a.height == b.height,
        forall|x: int, y: int, c: int|
            0 <= x < a.width && 0 <= y < a.height && 0 <= c < 3 ==> #[trigger] a.pix(x, y, c)
                == b.pix(x, y, c),
    ensures
        a.data@ == b.data@,
{
    let w = a.width as int;
    let h = a.height as int;
    assert forall|i: int| 0 <= i < a.data@.len() implies a.data@[i] == b.data@[i] by {
        assert(w >= 1 && h >= 1) by (nonlinear_arith)
            requires
                3 * w * h > 0,
                w >= 0,
                h >= 0,
        ;
        let p = i / 3;
        let c = i % 3;
        let y = p / w;
        let x = p % w;
        lemma_fundamental_div_mod(i, 3);
        lemma_mod_bound(i, 3);
        assert((w * h - 1) * 3 + 2 == 3 * w * h - 1) by (nonlinear_arith);
        lemma_fundamental_div_mod_converse(3 * w * h - 1, 3, w * h - 1, 2);
        lemma_div_is_ordered(i, 3 * w * h - 1, 3);
        lemma_div_pos_is_pos(i, 3);
        lemma_fundamental_div_mod(p, w);
        lemma_mod_bound(p, w);
        assert((h - 1) * w + (w - 1) == w * h - 1) by (nonlinear_arith);
        lemma_fundamental_div_mod_converse(w * h - 1, w, h - 1, w - 1);
        lemma_div_is_ordered(p, w * h - 1, w);
        lemma_div_pos_is_pos(p, w);
        assert(w * y == y * w) by (nonlinear_arith);
        assert(i == 3 * (y * w + x) + c);
        assert(a.pix(x, y, c) == b.pix(x, y, c));
    }
    assert(a.data@ =~= b.data@);
}

/// Padding then cropping back to the original size recovers exactly
/// the original image: the margin is the only region the padding
/// invents, and the crop discards exactly that margin.
pub proof fn lemma_pad_crop_round_trip(img: RgbRaster, m: u32, p: RgbRaster, cr: RgbRaster)
    requires
        img.wf(),
        img.width >= 1,
        img.height >= 1,
        m >= 1,
        is_pad_of(p, img, m),
        is_crop_of(cr, p, img.width, img.height),
    ensures
        cr.width == img.width,
        cr.height == img.height,
        cr.data@ == img.data@,
        forall|x: int, y: int, c: int|
            0 <= x < img.width && 0 <= y < img.height && 0 <= c < 3 ==> cr.pix(x, y, c)
                == #[trigger] img.pix(x, y, c),
{
    lemma_padded_dim(img.width as int, m as int);
    lemma_padded_dim(img.height as int, m as int);
    assert forall|x: int, y: int, c: int|
        0 <= x < img.width && 0 <= y < img.height && 0 <= c < 3 implies cr.pix(x, y, c)
        == #[trigger] img.pix(x, y, c) by {
        assert(cr.pix(x, y, c) == p.pix(x, y, c));
        assert(p.pix(x, y, c) == pad_cell(img, x, y, c));
        assert(reflect(x, img.width as int) == x);
        assert(reflect(y, img.height as int) == y);
    }
    lemma_pix_equality_extends(cr, img);
}

} // verus!
