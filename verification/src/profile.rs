//! Model profiles: the static contract one model imposes on the
//! pipeline, and the naming policy derived from it.

use vstd::prelude::*;

use crate::numstr::{spec_digits, u64_to_string};
use crate::tensor::{NormalizationRange, TensorFormat};

verus! {

/// The broad family a model belongs to, which decides the output
/// name suffix.
#[derive(Clone, Copy, Debug, PartialEq, Eq, Structural)]
pub enum ModelType {
    Upscaling,
    Denoising,
    Enhancement,
}

/// The text a model type shows in a chooser.
pub open spec fn spec_type_label(t: ModelType) -> Seq<char> {
    match t {
        ModelType::Upscaling => "Upscaling"@,
        ModelType::Denoising => "Denoising"@,
        ModelType::Enhancement => "Enhancement"@,
    }
}

impl ModelType {
    /// The text this model type shows in a chooser.
    pub fn label(&self) -> (s: &'static str)
        ensures
            s@ == spec_type_label(*self),
    {
        match self {
            ModelType::Upscaling => "Upscaling",
            ModelType::Denoising => "Denoising",
            ModelType::Enhancement => "Enhancement",
        }
    }
}

/// Everything the pipeline needs to know about one model: where its
/// artifact lives, what geometry it demands, and how its tensors are
/// laid out and normalized.
#[derive(Debug, Clone)]
pub struct ModelInfo {
    pub name: String,
    pub url: String,
    pub model_type: ModelType,
    /// Output spatial dimensions are `scale` times the input's.
    pub scale: u32,
    /// Input spatial dimensions must divide by this window multiple.
    pub window_size: u32,
    pub description: String,
    pub category: String,
    pub tensor_format: TensorFormat,
    pub input_norm: NormalizationRange,
    pub output_norm: NormalizationRange,
    /// Some models degrade below a minimum spatial dimension.
    pub min_dimension: Option<u32>,
}

impl ModelInfo {
    /// A usable profile scales by at least 1 and demands a window
    /// multiple of at least 1.
    pub open spec fn wf(&self) -> bool {
        self.scale >= 1 && self.window_size >= 1
    }

    /// The lower bound the size policy must respect, 0 when the model
    /// declares none.
    pub open spec fn spec_minimum_dimension(&self) -> u32 {
        match self.min_dimension {
            Some(d) => d,
            None => 0,
        }
    }

    /// The lower bound the size policy must respect.
    pub fn minimum_dimension(&self) -> (d: u32)
        ensures
            d == self.spec_minimum_dimension(),
    {
        match self.min_dimension {
            Some(d) => d,
            None => 0,
        }
    }
}

/// The suffix appended to an output file's stem: the scale for an
/// upscaling or enhancing model, a denoising tag for a pure denoiser,
/// and a generic tag otherwise.
pub open spec fn spec_suffix(t: ModelType, scale: u32) -> Seq<char> {
    if (t is Upscaling || t is Enhancement) && scale > 1 {
        seq!['_'] + spec_digits(scale as int) + seq!['x']
    } else if t is Denoising && scale == 1 {
        "_denoised"@
    } else {
        "_enhanced"@
    }
}

/// The suffix appended to an output file's stem.
pub fn output_suffix(t: ModelType, scale: u32) -> (s: String)
    ensures
        s@ == spec_suffix(t, scale),
{
    let upscaling = match t {
        ModelType::Upscaling => true,
        ModelType::Enhancement => true,
        ModelType::Denoising => false,
    };
    if upscaling && scale > 1 {
        proof {
            reveal_strlit("_");
            reveal_strlit("x");
        }
        let mut s = "_".to_owned();
        let digits = u64_to_string(scale as u64);
        s.append(digits.as_str());
        s.append("x");
        proof {
            assert("_"@ =~= seq!['_']);
            assert("x"@ =~= seq!['x']);
            assert(s@ =~= spec_suffix(t, scale));
        }
        s
    } else if matches!(t, ModelType::Denoising) && scale == 1 {
        "_denoised".to_owned()
    } else {
        "_enhanced".to_owned()
    }
}

/// The file name of one processed image: the input's stem, the
/// model's suffix, and a lossless extension.
pub open spec fn spec_output_file_name(stem: Seq<char>, t: ModelType, scale: u32) -> Seq<char> {
    stem + spec_suffix(t, scale) + ".png"@
}

/// The file name of one processed image.
pub fn output_file_name(stem: &str, t: ModelType, scale: u32) -> (r: String)
    ensures
        r@ == spec_output_file_name(stem@, t, scale),
{
    let mut s = stem.to_owned();
    let suffix = output_suffix(t, scale);
    s.append(suffix.as_str());
    s.append(".png");
    proof {
        assert(s@ =~= spec_output_file_name(stem@, t, scale));
    }
    s
}

/// Where a model's artifact is cached locally, by model name.
pub open spec fn spec_artifact_path(name: Seq<char>) -> Seq<char> {
    "./models/"@ + name + ".onnx"@
}

/// Where a model's artifact is cached locally.
pub fn artifact_path(name: &str) -> (r: String)
    ensures
        r@ == spec_artifact_path(name@),
{
    let mut s = "./models/".to_owned();
    s.append(name);
    s.append(".onnx");
    proof {
        assert(s@ =~= spec_artifact_path(name@));
    }
    s
}

/// The file name of a processed video: the source's stem with an
/// upscaled tag, in a broadly compatible container.
pub open spec fn spec_video_output_name(stem: Seq<char>) -> Seq<char> {
    stem + "_upscaled.mp4"@
}

/// The file name of a processed video.
pub fn video_output_name(stem: &str) -> (r: String)
    ensures
        r@ == spec_video_output_name(stem@),
{
    let mut s = stem.to_owned();
    s.append("_upscaled.mp4");
    proof {
        assert(s@ =~= spec_video_output_name(stem@));
    }
    s
}

/// The text a model shows in a chooser: its category and description,
/// with the scale for an upscaling model.
pub open spec fn spec_model_label(m: ModelInfo) -> Seq<char> {
    if m.model_type is Upscaling {
        m.category@ + " - "@ + m.description@ + " ("@ + spec_digits(m.scale as int) + "x)"@
    } else {
        m.category@ + " - "@ + m.description@
    }
}

impl ModelInfo {
    /// The text this model shows in a chooser.
    pub fn display_label(&self) -> (r: String)
        ensures
            r@ == spec_model_label(*self),
    {
        let mut s = self.category.clone();
        s.append(" - ");
        s.append(self.description.as_str());
        if matches!(self.model_type, ModelType::Upscaling) {
            s.append(" (");
            let digits = u64_to_string(self.scale as u64);
            s.append(digits.as_str());
            s.append("x)");
        }
        proof {
            assert(s@ =~= spec_model_label(*self));
        }
        s
    }
}

} // verus!
