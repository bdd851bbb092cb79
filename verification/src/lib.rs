//! Model-adaptive image and video restoration pipeline.
//!
//! The library decides everything a restoration run needs to decide:
//! how an image is resized to a model's working resolution, how it is
//! padded to the model's window multiple and cropped back, how pixels
//! are encoded into the model's tensor layout and value range and
//! decoded again, how batch outcomes are aggregated, and how the
//! external frame extraction and reassembly tool is invoked.
//! Reading files, running the inference engine and spawning the
//! external tool are left to the surrounding application.

pub mod batch;
pub mod codec;
pub mod error;
pub mod framerate;
pub mod geometry;
pub mod numstr;
pub mod pipeline;
pub mod profile;
pub mod raster;
pub mod tensor;
pub mod video;

use vstd::prelude::*;

verus! {

/// Default ceiling on the working resolution fed to inference.
pub const DEFAULT_WORKING_CAP: u32 = 512;

} // verus!
