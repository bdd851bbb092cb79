//! Size policy: choosing the working resolution for one image.
//!
//! A model run is bounded by a working cap (the largest spatial
//! dimension fed to inference) and, for some models, by a minimum
//! dimension below which the model degrades.  The policy keeps an
//! image unchanged when it already lies inside those bounds, scales
//! it down uniformly so the larger side meets the cap when it is too
//! large, and otherwise scales it up uniformly so the smaller side
//! meets the minimum.  Scaled dimensions are the floor of the exact
//! rational product, matching an aspect-preserving resize.

use vstd::arithmetic::div_mod::{lemma_div_is_ordered, lemma_div_multiples_vanish};
use vstd::prelude::*;

use crate::error::SizePolicyError;

verus! {

/// The cap may never sit below the minimum dimension; when it does,
/// the minimum wins.
pub open spec fn effective_cap(minimum_dimension: u32, working_cap: u32) -> u32 {
    if working_cap >= minimum_dimension {
        working_cap
    } else {
        minimum_dimension
    }
}

/// Both dimensions already acceptable: nothing to do.
pub open spec fn within_bounds(w: u32, h: u32, minimum_dimension: u32, cap: u32) -> bool {
    w <= cap && h <= cap && w >= minimum_dimension && h >= minimum_dimension
}

/// Floor of `d * num / den`, the dimension after uniform scaling by
/// `num / den`.
pub open spec fn scaled_dim(d: u32, num: u32, den: u32) -> int
    recommends
        den > 0,
{
    (d as int * num as int) / (den as int)
}

/// What the size policy returns for every input.
pub open spec fn spec_resolve(
    w: u32,
    h: u32,
    minimum_dimension: u32,
    working_cap: u32,
) -> Result<(u32, u32), SizePolicyError> {
    let cap = effective_cap(minimum_dimension, working_cap);
    if w == 0 || h == 0 {
        Err(SizePolicyError::ZeroDimension)
    } else if within_bounds(w, h, minimum_dimension, cap) {
        Ok((w, h))
    } else if w > cap || h > cap {
        let larger = if w >= h {
            w
        } else {
            h
        };
        let tw = scaled_dim(w, cap, larger);
        let th = scaled_dim(h, cap, larger);
        if tw == 0 || th == 0 {
            Err(SizePolicyError::TargetVanished)
        } else {
            Ok((tw as u32, th as u32))
        }
    } else {
        let smaller = if w <= h {
            w
        } else {
            h
        };
        let tw = scaled_dim(w, minimum_dimension, smaller);
        let th = scaled_dim(h, minimum_dimension, smaller);
        if tw > u32::MAX || th > u32::MAX {
            Err(SizePolicyError::TargetTooLarge)
        } else {
            Ok((tw as u32, th as u32))
        }
    }
}

/// A downscale hits the cap exactly: when the width is the larger
/// side and exceeds the effective cap, an accepted working size has
/// width exactly the cap and height no larger.
pub proof fn lemma_downscale_caps_exactly(w: u32, h: u32, minimum_dimension: u32, working_cap: u32)
    requires
        1 <= h <= w,
        w > effective_cap(minimum_dimension, working_cap),
    ensures
        spec_resolve(w, h, minimum_dimension, working_cap) matches Ok(t) ==> t.0 == effective_cap(
            minimum_dimension,
            working_cap,
        ) && t.1 <= t.0,
{
    let cap = effective_cap(minimum_dimension, working_cap);
    lemma_div_multiples_vanish(cap as int, w as int);
    assert((h as int) * (cap as int) <= (w as int) * (cap as int)) by (nonlinear_arith)
        requires
            h <= w,
            0 <= cap,
    ;
    lemma_div_is_ordered(h as int * cap as int, w as int * cap as int, w as int);
}

/// An upscale meets the minimum exactly: when the width is the
/// smaller side and falls below the minimum while both sides fit the
/// effective cap, an accepted working size has width exactly the
/// minimum and height no smaller.
pub proof fn lemma_upscale_meets_minimum(w: u32, h: u32, minimum_dimension: u32, working_cap: u32)
    requires
        1 <= w <= h,
        w < minimum_dimension,
        h <= effective_cap(minimum_dimension, working_cap),
    ensures
        spec_resolve(w, h, minimum_dimension, working_cap) matches Ok(t) ==> t.0
            == minimum_dimension && t.1 >= t.0,
{
    lemma_div_multiples_vanish(minimum_dimension as int, w as int);
    assert((w as int) * (minimum_dimension as int) <= (h as int) * (minimum_dimension as int))
        by (nonlinear_arith)
        requires
            w <= h,
            0 <= minimum_dimension,
    ;
    lemma_div_is_ordered(
        w as int * minimum_dimension as int,
        h as int * minimum_dimension as int,
        w as int,
    );
}

/// Decide the working resolution for an image of `w` by `h` pixels.
///
/// Returns exactly what the policy prescribes; on success both sides
/// are at least 1, and after a downscale neither exceeds the
/// effective cap.
pub fn resolve_working_size(
    w: u32,
    h: u32,
    minimum_dimension: u32,
    working_cap: u32,
) -> (r: Result<(u32, u32), SizePolicyError>)
    ensures
        r == spec_resolve(w, h, minimum_dimension, working_cap),
        r matches Ok(t) ==> t.0 >= 1 && t.1 >= 1,
        r matches Ok(t) ==> ((w > effective_cap(minimum_dimension, working_cap) || h
            > effective_cap(minimum_dimension, working_cap)) ==> t.0 <= effective_cap(
            minimum_dimension,
            working_cap,
        ) && t.1 <= effective_cap(minimum_dimension, working_cap)),
{
    let cap = if working_cap >= minimum_dimension {
        working_cap
    } else {
        minimum_dimension
    };
    if w == 0 || h == 0 {
        return Err(SizePolicyError::ZeroDimension);
    }
    if w <= cap && h <= cap && w >= minimum_dimension && h >= minimum_dimension {
        return Ok((w, h));
    }
    if w > cap || h > cap {
        let larger = if w >= h {
            w
        } else {
            h
        };
        proof {
            assert((w as int) * (cap as int) <= (larger as int) * (cap as int)
                && (h as int) * (cap as int) <= (larger as int) * (cap as int)
                && (larger as int) * (cap as int) < 0x10000000000000000) by (nonlinear_arith)
                requires
                    w <= larger,
                    h <= larger,
                    larger < 0x100000000,
                    cap < 0x100000000,
                    0 <= cap,
            ;
            lemma_div_is_ordered(w as int * cap as int, larger as int * cap as int, larger as int);
            lemma_div_is_ordered(h as int * cap as int, larger as int * cap as int, larger as int);
            lemma_div_multiples_vanish(cap as int, larger as int);
        }
        let tw = (w as u64 * cap as u64) / larger as u64;
        let th = (h as u64 * cap as u64) / larger as u64;
        if tw == 0 || th == 0 {
            return Err(SizePolicyError::TargetVanished);
        }
        Ok((tw as u32, th as u32))
    } else {
        let smaller = if w <= h {
            w
        } else {
            h
        };
        proof {
            assert((smaller as int) <= (w as int) * (minimum_dimension as int)
                && (smaller as int) <= (h as int) * (minimum_dimension as int)
                && (w as int) * (minimum_dimension as int) < 0x10000000000000000
                && (h as int) * (minimum_dimension as int) < 0x10000000000000000)
                by (nonlinear_arith)
                requires
                    1 <= smaller,
                    smaller <= w,
                    smaller <= h,
                    w < 0x100000000,
                    h < 0x100000000,
                    1 <= minimum_dimension,
                    minimum_dimension < 0x100000000,
            ;
            lemma_div_is_ordered(
                smaller as int,
                w as int * minimum_dimension as int,
                smaller as int,
            );
            lemma_div_is_ordered(
                smaller as int,
                h as int * minimum_dimension as int,
                smaller as int,
            );
            lemma_div_multiples_vanish(1, smaller as int);
        }
        let tw = (w as u64 * minimum_dimension as u64) / smaller as u64;
        let th = (h as u64 * minimum_dimension as u64) / smaller as u64;
        if tw > u32::MAX as u64 || th > u32::MAX as u64 {
            return Err(SizePolicyError::TargetTooLarge);
        }
        Ok((tw as u32, th as u32))
    }
}

} // verus!
