//! The per-image restoration pipeline, up to and back from the
//! inference boundary.
//!
//! One image travels: resize to the working resolution, pad to the
//! model's window multiple, encode as the model's input tensor —
//! inference runs outside — decode the output tensor, crop to the
//! scale-adjusted working size.  Both halves are here; the surrounding
//! application only loads the file, runs the engine and saves the
//! result.

use vstd::prelude::*;

use crate::error::{PipelineError, ShapeError, Stage, StageFailure};
use crate::geometry::{resolve_working_size, spec_resolve};
use crate::profile::ModelInfo;
use crate::raster::{
    crop_top_left, is_crop_of, is_pad_of, lemma_padded_dim, pad_cell, pad_to_multiple, padded_dim,
    reflect, PaddingDescriptor, RgbRaster,
};
use crate::tensor::{
    decodes_to, encodes, from_tensor, lemma_tensor_round_trip, to_tensor, NormalizationRange,
    Tensor, TensorFormat,
};

verus! {

/// What Lanczos resampling of a flat RGB buffer to new extents
/// returns.  The result depends on the source pixels and the four
/// extents alone.
pub uninterp spec fn resample_of(data: Seq<u8>, w: nat, h: nat, nw: nat, nh: nat) -> Seq<u8>;

/// Relies on image::imageops::resize with the Lanczos3 filter: the
/// result is a buffer of exactly the requested extents, a function of
/// the source pixels and extents alone; requesting the source extents
/// returns the source pixels unchanged.  The requested buffer must fit
/// a vector: past that, the allocation panics.
#[verifier::external_body]
fn resize_lanczos(img: &RgbRaster, nw: u32, nh: u32) -> (r: RgbRaster)
    requires
        img.wf(),
        img.width >= 1,
        img.height >= 1,
        nw >= 1,
        nh >= 1,
        3 * (nw as int) * (nh as int) <= usize::MAX,
    ensures
        r.wf(),
        r.width == nw,
        r.height == nh,
        r.data@ == resample_of(
            img.data@,
            img.width as nat,
            img.height as nat,
            nw as nat,
            nh as nat,
        ),
        nw == img.width && nh == img.height ==> r.data@ == img.data@,
{
    let src = image::RgbImage::from_raw(img.width, img.height, img.data.clone())
        .expect("buffer length matches the extents");
    let out = image::imageops::resize(&src, nw, nh, image::imageops::FilterType::Lanczos3);
    RgbRaster { width: nw, height: nh, data: out.into_raw() }
}

/// A model input prepared from one image, with everything the
/// reconstruction half needs to undo the geometry changes.
#[derive(Debug)]
pub struct PreparedImage {
    /// The model input: the resized, padded, encoded image.
    pub tensor: Tensor,
    /// The working width before padding; the crop base.
    pub working_width: u32,
    /// The working height before padding; the crop base.
    pub working_height: u32,
    /// How much padding the working image received.
    pub padding: PaddingDescriptor,
}

/// The chain an accepted `PreparedImage` came through: some resample
/// of the source to the working size, some padding of it to the
/// window multiple, and the encoding of the padded image.
pub open spec fn spec_prepared(p: PreparedImage, img: RgbRaster, profile: ModelInfo) -> bool {
    exists|resized: RgbRaster, padded: RgbRaster|
        {
            &&& resized.width == p.working_width
            &&& resized.height == p.working_height
            &&& resized.wf()
            &&& resized.data@ == resample_of(
                img.data@,
                img.width as nat,
                img.height as nat,
                p.working_width as nat,
                p.working_height as nat,
            )
            &&& #[trigger] is_pad_of(padded, resized, profile.window_size)
            &&& encodes(p.tensor, padded, profile.tensor_format, profile.input_norm)
        }
}

/// Prepare one image for inference under a profile: resolve the
/// working size, resample to it, pad to the window multiple, encode.
///
/// Succeeds exactly when the size policy accepts the image's
/// dimensions and the padded working size stays representable; the
/// error names the failing stage.
pub fn prepare_image(img: &RgbRaster, profile: &ModelInfo, working_cap: u32) -> (r: Result<
    PreparedImage,
    StageFailure,
>)
    requires
        img.wf(),
        profile.wf(),
    ensures
        ({
            let policy = spec_resolve(
                img.width,
                img.height,
                profile.spec_minimum_dimension(),
                working_cap,
            );
            match r {
                Ok(p) => {
                    &&& policy matches Ok(t)
                    &&& 3 * (t.0 as int) * (t.1 as int) <= usize::MAX
                    &&& p.working_width == t.0
                    &&& p.working_height == t.1
                    &&& padded_dim(t.0 as int, profile.window_size as int) <= u32::MAX
                    &&& padded_dim(t.1 as int, profile.window_size as int) <= u32::MAX
                    &&& p.padding.padded_width as int == padded_dim(
                        t.0 as int,
                        profile.window_size as int,
                    )
                    &&& p.padding.padded_height as int == padded_dim(
                        t.1 as int,
                        profile.window_size as int,
                    )
                    &&& p.padding.padded_width as int % profile.window_size as int == 0
                    &&& p.padding.padded_height as int % profile.window_size as int == 0
                    &&& p.padding.padded_width >= t.0
                    &&& p.padding.padded_height >= t.1
                    &&& p.padding.pad_right == p.padding.padded_width - t.0
                    &&& p.padding.pad_bottom == p.padding.padded_height - t.1
                    &&& p.tensor.wf()
                    &&& p.tensor.layout == profile.tensor_format
                    &&& p.tensor.width == p.padding.padded_width
                    &&& p.tensor.height == p.padding.padded_height
                    &&& spec_prepared(p, *img, *profile)
                },
                Err(e) => {
                    &&& (policy matches Err(pe) ==> e == (StageFailure {
                        stage: Stage::Resized,
                        error: PipelineError::SizePolicy(pe),
                    }))
                    &&& (policy matches Ok(t) ==> {
                        let fits = 3 * (t.0 as int) * (t.1 as int) <= usize::MAX;
                        &&& (!fits || padded_dim(t.0 as int, profile.window_size as int)
                            > u32::MAX || padded_dim(t.1 as int, profile.window_size as int)
                            > u32::MAX)
                        &&& (!fits ==> e.stage == Stage::Resized && e.error matches
                            PipelineError::Shape(ShapeError::BufferTooLarge { .. }))
                        &&& (fits ==> e.stage == Stage::Padded && e.error matches
                            PipelineError::Shape(ShapeError::ExtentTooLarge { .. }))
                    })
                },
            }
        }),
{
    let min_dim = profile.minimum_dimension();
    let (tw, th) = match resolve_working_size(img.width, img.height, min_dim, working_cap) {
        Ok(t) => t,
        Err(pe) => {
            return Err(
                StageFailure { stage: Stage::Resized, error: PipelineError::SizePolicy(pe) },
            );
        },
    };
    proof {
        assert(3 * (tw as int) * (th as int) < 0x100000000000000000000000000000000)
            by (nonlinear_arith)
            requires
                tw < 0x100000000,
                th < 0x100000000,
        ;
    }
    let needed = 3 * (tw as u128) * (th as u128);
    if needed > usize::MAX as u128 {
        return Err(
            StageFailure {
                stage: Stage::Resized,
                error: PipelineError::Shape(ShapeError::BufferTooLarge { required: needed }),
            },
        );
    }
    let resized = resize_lanczos(img, tw, th);
    let m = profile.window_size;
    proof {
        lemma_padded_dim(tw as int, m as int);
        lemma_padded_dim(th as int, m as int);
    }
    let pw64 = ((tw as u64 + m as u64 - 1) / m as u64) * m as u64;
    let ph64 = ((th as u64 + m as u64 - 1) / m as u64) * m as u64;
    if pw64 > u32::MAX as u64 {
        return Err(
            StageFailure {
                stage: Stage::Padded,
                error: PipelineError::Shape(ShapeError::ExtentTooLarge { extent: pw64 }),
            },
        );
    }
    if ph64 > u32::MAX as u64 {
        return Err(
            StageFailure {
                stage: Stage::Padded,
                error: PipelineError::Shape(ShapeError::ExtentTooLarge { extent: ph64 }),
            },
        );
    }
    let (padded, descriptor) = pad_to_multiple(&resized, m);
    let tensor = to_tensor(&padded, profile.tensor_format, profile.input_norm);
    let prepared = PreparedImage {
        tensor,
        working_width: tw,
        working_height: th,
        padding: descriptor,
    };
    proof {
        assert(spec_prepared(prepared, *img, *profile)) by {
            assert(is_pad_of(padded, resized, profile.window_size) && encodes(
                prepared.tensor,
                padded,
                profile.tensor_format,
                profile.input_norm,
            ));
        }
    }
    Ok(prepared)
}

/// The chain an accepted reconstruction came through: the decoding of
/// the output tensor, cropped to the scale-adjusted working size.
pub open spec fn spec_reconstructed(
    img: RgbRaster,
    t: Tensor,
    profile: ModelInfo,
    crop_w: u32,
    crop_h: u32,
) -> bool {
    exists|decoded: RgbRaster|
        #[trigger] decodes_to(decoded, t, profile.output_norm) && is_crop_of(
            img,
            decoded,
            crop_w,
            crop_h,
        )
}

/// Reconstruct the restored image from the inference output: decode
/// the tensor and crop to the pre-padding working size times the
/// model's scale — never to the padded size, whose margin the crop
/// discards.
///
/// Succeeds exactly when the scale-adjusted working size is
/// representable and lies within the decoded output; the error names
/// the failing stage.
pub fn finish_image(
    t: &Tensor,
    profile: &ModelInfo,
    working_width: u32,
    working_height: u32,
) -> (r: Result<RgbRaster, StageFailure>)
    requires
        t.wf(),
        profile.wf(),
    ensures
        ({
            let cw = working_width as int * profile.scale as int;
            let ch = working_height as int * profile.scale as int;
            match r {
                Ok(img) => {
                    &&& cw <= u32::MAX
                    &&& ch <= u32::MAX
                    &&& cw <= t.width
                    &&& ch <= t.height
                    &&& img.width == cw
                    &&& img.height == ch
                    &&& img.wf()
                    &&& spec_reconstructed(img, *t, *profile, cw as u32, ch as u32)
                },
                Err(e) => {
                    &&& !(cw <= u32::MAX && ch <= u32::MAX && cw <= t.width && ch <= t.height)
                    &&& e.stage == Stage::Cropped
                    &&& (cw > u32::MAX || ch > u32::MAX ==> e.error matches PipelineError::Shape(
                        ShapeError::ExtentTooLarge { .. },
                    ))
                    &&& (cw <= u32::MAX && ch <= u32::MAX ==> e.error matches PipelineError::Shape(
                        ShapeError::CropExceedsSource { .. },
                    ))
                },
            }
        }),
{
    proof {
        assert((working_width as int) * (profile.scale as int) < 0x10000000000000000 && (
        working_height as int) * (profile.scale as int) < 0x10000000000000000) by (nonlinear_arith)
            requires
                working_width < 0x100000000,
                working_height < 0x100000000,
                profile.scale < 0x100000000,
                0 <= profile.scale,
        ;
    }
    let cw64 = working_width as u64 * profile.scale as u64;
    let ch64 = working_height as u64 * profile.scale as u64;
    if cw64 > u32::MAX as u64 {
        return Err(
            StageFailure {
                stage: Stage::Cropped,
                error: PipelineError::Shape(ShapeError::ExtentTooLarge { extent: cw64 }),
            },
        );
    }
    if ch64 > u32::MAX as u64 {
        return Err(
            StageFailure {
                stage: Stage::Cropped,
                error: PipelineError::Shape(ShapeError::ExtentTooLarge { extent: ch64 }),
            },
        );
    }
    let cw = cw64 as u32;
    let ch = ch64 as u32;
    if cw > t.width {
        return Err(
            StageFailure {
                stage: Stage::Cropped,
                error: PipelineError::Shape(
                    ShapeError::CropExceedsSource { target: cw as u64, available: t.width as u64 },
                ),
            },
        );
    }
    if ch > t.height {
        return Err(
            StageFailure {
                stage: Stage::Cropped,
                error: PipelineError::Shape(
                    ShapeError::CropExceedsSource { target: ch as u64, available: t.height as u64 },
                ),
            },
        );
    }
    let decoded = from_tensor(t, profile.output_norm);
    let img = crop_top_left(&decoded, cw, ch);
    proof {
        assert(spec_reconstructed(img, *t, *profile, cw, ch)) by {
            assert(decodes_to(decoded, *t, profile.output_norm) && is_crop_of(
                img,
                decoded,
                cw,
                ch,
            ));
        }
    }
    Ok(img)
}

/// Geometry round-trip: padding an image to any window multiple,
/// encoding it in any layout and range, decoding the very tensor
/// back, and cropping to the original size recovers exactly the
/// original image.  This is what a run through a perfect identity
/// model does to the geometry: nothing.
pub proof fn lemma_pipeline_round_trip(
    img: RgbRaster,
    padded: RgbRaster,
    t: Tensor,
    decoded: RgbRaster,
    out: RgbRaster,
    m: u32,
    layout: TensorFormat,
    range: NormalizationRange,
)
    requires
        img.wf(),
        img.width >= 1,
        img.height >= 1,
        m >= 1,
        is_pad_of(padded, img, m),
        encodes(t, padded, layout, range),
        decodes_to(decoded, t, range),
        is_crop_of(out, decoded, img.width, img.height),
    ensures
        out.width == img.width,
        out.height == img.height,
        out.data@ == img.data@,
        forall|x: int, y: int, c: int|
            0 <= x < img.width && 0 <= y < img.height && 0 <= c < 3 ==> out.pix(x, y, c)
                == #[trigger] img.pix(x, y, c),
{
    lemma_tensor_round_trip(padded, t, decoded, layout, range);
    lemma_padded_dim(img.width as int, m as int);
    lemma_padded_dim(img.height as int, m as int);
    assert forall|x: int, y: int, c: int|
        0 <= x < img.width && 0 <= y < img.height && 0 <= c < 3 implies out.pix(x, y, c)
        == #[trigger] img.pix(x, y, c) by {
        assert(out.pix(x, y, c) == decoded.pix(x, y, c));
        assert(decoded.pix(x, y, c) == padded.pix(x, y, c));
        assert(padded.pix(x, y, c) == pad_cell(img, x, y, c));
        assert(reflect(x, img.width as int) == x);
        assert(reflect(y, img.height as int) == y);
    }
    crate::raster::lemma_pix_equality_extends(out, img);
}

/// The padded working size admits the scale-adjusted crop: the model
/// scales the padded image, and the crop target — the working size
/// times the scale — never reaches past it.
pub proof fn lemma_crop_target_fits(w: int, pw: int, scale: int)
    requires
        0 <= w <= pw,
        scale >= 1,
    ensures
        w * scale <= pw * scale,
{
    assert(w * scale <= pw * scale) by (nonlinear_arith)
        requires
            0 <= w <= pw,
            scale >= 1,
    ;
}

} // verus!
