//! Error taxonomy of the pipeline.

use vstd::prelude::*;

verus! {

/// The stage of the per-image pipeline at which an item failed.
#[derive(Clone, Copy, Debug, PartialEq, Eq, Structural)]
pub enum Stage {
    Loaded,
    Resized,
    Padded,
    Encoded,
    Inferred,
    Decoded,
    Cropped,
    Saved,
}

/// The text a stage shows in a failure report.
pub open spec fn spec_stage_name(s: Stage) -> Seq<char> {
    match s {
        Stage::Loaded => "Loaded"@,
        Stage::Resized => "Resized"@,
        Stage::Padded => "Padded"@,
        Stage::Encoded => "Encoded"@,
        Stage::Inferred => "Inferred"@,
        Stage::Decoded => "Decoded"@,
        Stage::Cropped => "Cropped"@,
        Stage::Saved => "Saved"@,
    }
}

impl Stage {
    /// The text this stage shows in a failure report.
    pub fn name(&self) -> (s: &'static str)
        ensures
            s@ == spec_stage_name(*self),
    {
        match self {
            Stage::Loaded => "Loaded",
            Stage::Resized => "Resized",
            Stage::Padded => "Padded",
            Stage::Encoded => "Encoded",
            Stage::Inferred => "Inferred",
            Stage::Decoded => "Decoded",
            Stage::Cropped => "Cropped",
            Stage::Saved => "Saved",
        }
    }
}

/// A buffer or tensor did not have the geometry its user declared.
#[derive(Clone, Copy, Debug, PartialEq, Eq, Structural)]
pub enum ShapeError {
    /// The leading (batch) extent of a tensor was not 1.
    BatchNotOne { batch: u64 },
    /// The channel extent of a tensor was not 3.
    ChannelsNotThree { channels: u64 },
    /// A flat buffer's length did not match its declared extents.
    LengthMismatch { expected: u128, actual: u128 },
    /// A spatial extent does not fit the pipeline's dimension type.
    ExtentTooLarge { extent: u64 },
    /// A buffer of the requested extents cannot exist in memory.
    BufferTooLarge { required: u128 },
    /// The region to crop reaches past the decoded output.
    CropExceedsSource { target: u64, available: u64 },
}

/// What went wrong inside the verified pipeline stages.
#[derive(Clone, Copy, Debug, PartialEq, Eq, Structural)]
pub enum PipelineError {
    SizePolicy(SizePolicyError),
    Shape(ShapeError),
}

/// A pipeline error tagged with the stage it occurred at.
#[derive(Clone, Copy, Debug, PartialEq, Eq, Structural)]
pub struct StageFailure {
    pub stage: Stage,
    pub error: PipelineError,
}

/// The text a pipeline error shows in a failure report.
pub open spec fn spec_error_text(e: PipelineError) -> Seq<char> {
    match e {
        PipelineError::SizePolicy(SizePolicyError::ZeroDimension) => "invalid or zero input dimensions"@,
        PipelineError::SizePolicy(SizePolicyError::TargetVanished) => "scaling produced a zero dimension"@,
        PipelineError::SizePolicy(SizePolicyError::TargetTooLarge) => "scaling exceeded the dimension limit"@,
        PipelineError::Shape(ShapeError::BatchNotOne { .. }) => "tensor batch extent is not 1"@,
        PipelineError::Shape(ShapeError::ChannelsNotThree { .. }) => "tensor channel extent is not 3"@,
        PipelineError::Shape(ShapeError::LengthMismatch { .. }) => "buffer length does not match its extents"@,
        PipelineError::Shape(ShapeError::ExtentTooLarge { .. }) => "extent exceeds the dimension limit"@,
        PipelineError::Shape(ShapeError::BufferTooLarge { .. }) => "buffer exceeds the addressable size"@,
        PipelineError::Shape(ShapeError::CropExceedsSource { .. }) => "decoded output smaller than the crop target"@,
    }
}

impl PipelineError {
    /// The text this error shows in a failure report.
    pub fn describe(&self) -> (s: &'static str)
        ensures
            s@ == spec_error_text(*self),
    {
        match self {
            PipelineError::SizePolicy(SizePolicyError::ZeroDimension) => "invalid or zero input dimensions",
            PipelineError::SizePolicy(SizePolicyError::TargetVanished) => "scaling produced a zero dimension",
            PipelineError::SizePolicy(SizePolicyError::TargetTooLarge) => "scaling exceeded the dimension limit",
            PipelineError::Shape(ShapeError::BatchNotOne { .. }) => "tensor batch extent is not 1",
            PipelineError::Shape(ShapeError::ChannelsNotThree { .. }) => "tensor channel extent is not 3",
            PipelineError::Shape(ShapeError::LengthMismatch { .. }) => "buffer length does not match its extents",
            PipelineError::Shape(ShapeError::ExtentTooLarge { .. }) => "extent exceeds the dimension limit",
            PipelineError::Shape(ShapeError::BufferTooLarge { .. }) => "buffer exceeds the addressable size",
            PipelineError::Shape(ShapeError::CropExceedsSource { .. }) => "decoded output smaller than the crop target",
        }
    }
}

/// Why the size policy could not produce a working resolution.
#[derive(Clone, Copy, Debug, PartialEq, Eq, Structural)]
pub enum SizePolicyError {
    /// An input dimension was zero.
    ZeroDimension,
    /// Uniform scaling drove a dimension to zero.
    TargetVanished,
    /// Uniform scaling drove a dimension past `u32::MAX`.
    TargetTooLarge,
}

} // verus!
