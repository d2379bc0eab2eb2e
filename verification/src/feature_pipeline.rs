//! Errors of the grading-feature pipeline (downsampling, Oklab conversion, feature
//! extraction).

use vstd::prelude::*;
use crate::text::concat;

verus! {

broadcast use vstd::string::group_string_axioms;

/// Errors of the grading-feature pipeline.
#[derive(Debug, Clone)]
pub enum FeaturePipelineError {
    DownsampleError(String),
    OklabError(String),
    ExtractionError(String),
}

impl FeaturePipelineError {
    /// The text of the error.
    pub fn message(&self) -> (r: String)
        ensures
            *self matches FeaturePipelineError::DownsampleError(m) ==> r@ == "PIPELINE_DOWNSAMPLE_ERROR -- "@ + m@,
            *self matches FeaturePipelineError::OklabError(m) ==> r@ == "PIPELINE_OKLAB_ERROR -- "@ + m@,
            *self matches FeaturePipelineError::ExtractionError(m) ==> r@ == "PIPELINE_EXTRACTION_ERROR -- "@ + m@,
    {
        match self {
            FeaturePipelineError::DownsampleError(m) => concat("PIPELINE_DOWNSAMPLE_ERROR -- ", m.as_str()),
            FeaturePipelineError::OklabError(m) => concat("PIPELINE_OKLAB_ERROR -- ", m.as_str()),
            FeaturePipelineError::ExtractionError(m) => concat("PIPELINE_EXTRACTION_ERROR -- ", m.as_str()),
        }
    }
}

} // verus!
