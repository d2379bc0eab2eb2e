//! Verified core of the Mengxi colour-grading pipeline manager.

pub mod text;
pub mod clock;
pub mod color_space;
pub mod grading_blob;
pub mod movie_fingerprint;
pub mod ppm;
pub mod markdown;
pub mod keys;
pub mod chat;
pub mod explorer;
pub mod dataset;
pub mod validate;
pub mod json;
pub mod python_bridge;
pub mod db;
pub mod hybrid_scoring;
pub mod color_science;
pub mod lut;
pub mod strip_analysis;
pub mod analytics;
pub mod calibration;
pub mod project;
pub mod fingerprint;
pub mod feature_pipeline;
pub mod movie_search;
pub mod consistency;
pub mod downsample;
pub mod audio_waveform;
