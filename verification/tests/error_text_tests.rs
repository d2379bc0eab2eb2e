use mengxi::analytics::AnalyticsError;
use mengxi::calibration::{check_feedback_action, CalibrationError, FeedbackError};
use mengxi::color_space::ColorScienceError;
use mengxi::feature_pipeline::FeaturePipelineError;
use mengxi::fingerprint::FingerprintError;
use mengxi::hybrid_scoring::HybridScoringError;
use mengxi::lut::{LutDepError, LutDiffError, LutGenerationError};
use mengxi::movie_fingerprint::MovieFingerprintError;
use mengxi::movie_search::MovieSearchError;
use mengxi::project::ImportError;

#[test]
fn analytics_test_error_display() {
    let err = AnalyticsError::DatabaseError("query failed".to_string());
    assert!(err.message().contains("ANALYTICS_DB_ERROR"));
}

#[test]
fn test_calibration_error_display() {
    let err = CalibrationError::DatabaseError("query failed".to_string());
    assert!(err.message().contains("CALIBRATION_DB_ERROR"));
}

#[test]
fn color_science_test_error_display() {
    let err = ColorScienceError::FfiUnavailable;
    assert!(err.message().contains("COLOR_SCIENCE_UNAVAILABLE"));
    let err = ColorScienceError::FfiError(-3, "test".to_string());
    assert!(err.message().contains("COLOR_SCIENCE_FFI_ERROR"));
    let err = ColorScienceError::LogDataRequiresConversion("acescct input".to_string());
    assert!(err.message().contains("COLOR_SCIENCE_LOG_REQUIRED"));
    let err = ColorScienceError::UnsupportedTransform("test".to_string());
    assert!(err.message().contains("COLOR_SCIENCE_UNSUPPORTED"));
}

#[test]
fn feature_pipeline_test_error_display() {
    let err = FeaturePipelineError::DownsampleError("too small".to_string());
    assert!(err.message().contains("PIPELINE_DOWNSAMPLE_ERROR"));
    let err = FeaturePipelineError::OklabError("bad data".to_string());
    assert!(err.message().contains("PIPELINE_OKLAB_ERROR"));
    let err = FeaturePipelineError::ExtractionError("ffi failed".to_string());
    assert!(err.message().contains("PIPELINE_EXTRACTION_ERROR"));
}

#[test]
fn test_feedback_error_display() {
    let err = FeedbackError::DatabaseError("insert failed".to_string());
    assert!(err.message().contains("FEEDBACK_DB_ERROR"));
    let err = FeedbackError::InvalidAction("bad action".to_string());
    assert!(err.message().contains("FEEDBACK_INVALID_ACTION"));
}

#[test]
fn test_record_feedback_invalid_action() {
    let result = check_feedback_action("maybe");
    assert!(result.is_err());
    assert!(result.unwrap_err().message().contains("FEEDBACK_INVALID_ACTION"));
    assert!(check_feedback_action("accepted").is_ok());
    assert!(check_feedback_action("rejected").is_ok());
}

#[test]
fn test_fingerprint_error_display() {
    let err = FingerprintError::FfiUnavailable;
    assert!(err.message().contains("FINGERPRINT_UNAVAILABLE"));
    let err = FingerprintError::FfiError(-1, "test".to_string());
    assert!(err.message().contains("FINGERPRINT_FFI_ERROR"));
    let err = FingerprintError::InvalidInput("bad data".to_string());
    assert!(err.message().contains("FINGERPRINT_INVALID_INPUT"));
}

#[test]
fn test_hybrid_scoring_error_display() {
    let err = HybridScoringError::WeightError("test error".to_string());
    assert!(err.message().contains("HYBRID_SCORING_WEIGHT_ERROR"));
    let err = HybridScoringError::NoSignalsAvailable;
    assert!(err.message().contains("HYBRID_SCORING_NO_SIGNALS"));
}

#[test]
fn movie_fingerprint_test_error_display() {
    let err = MovieFingerprintError::FfiError("code -1".to_string());
    assert!(err.message().contains("MOVIE_FINGERPRINT_FFI_ERROR"));
    let err = MovieFingerprintError::InvalidInput("bad params".to_string());
    assert!(err.message().contains("MOVIE_FINGERPRINT_INVALID_INPUT"));
    let err = MovieFingerprintError::PpmParseError("bad header".to_string());
    assert!(err.message().contains("MOVIE_FINGERPRINT_PPM_PARSE_ERROR"));
}

#[test]
fn movie_search_test_error_display() {
    let err = MovieSearchError::InvalidInput("bad params".to_string());
    assert!(err.message().contains("MOVIE_SEARCH_INVALID_INPUT"));
    let err = MovieSearchError::NoResults("empty".to_string());
    assert!(err.message().contains("MOVIE_SEARCH_NO_RESULTS"));
}

#[test]
fn test_import_error_display() {
    let err = ImportError::PathNotFound("/bad".to_string());
    assert!(err.message().contains("IMPORT_PATH_NOT_FOUND"));
    let err = ImportError::DuplicateName("dup".to_string());
    assert!(err.message().contains("IMPORT_DUPLICATE_NAME"));
    let err = ImportError::DbError("fail".to_string());
    assert!(err.message().contains("DB_ERROR"));
    let err = ImportError::CorruptFile { filename: "x".to_string(), reason: "bad".to_string() };
    assert!(err.message().contains("IMPORT_CORRUPT_FILE"));
}

#[test]
fn lut_diff_test_error_display() {
    let err = LutDiffError::FileNotFound("/tmp/test.cube".to_string());
    assert!(err.message().contains("LUTDIFF_IO_ERROR"));
    let err = LutDiffError::GridSizeMismatch { a: 17, b: 33 };
    assert!(err.message().contains("LUTDIFF_GRID_MISMATCH"));
    assert_eq!(err.message(), "LUTDIFF_GRID_MISMATCH -- grid sizes differ: 17 vs 33");
    let err = LutDepError::MissingArg("--lut is required".to_string());
    assert!(err.message().contains("LUTDEP_MISSING_ARG"));
    let err = LutDepError::DbError("init failed".to_string());
    assert!(err.message().contains("LUTDEP_DB_ERROR"));
}

#[test]
fn lut_generation_test_error_display() {
    let err = LutGenerationError::FingerprintNotFound;
    assert!(err.message().contains("EXPORT_FINGERPRINT_NOT_FOUND"));
    let err = LutGenerationError::OverwriteDenied("/tmp/test.cube".to_string());
    assert!(err.message().contains("EXPORT_FILE_EXISTS"));
    let err = LutGenerationError::FileExists("/tmp/test.cube".to_string());
    assert!(err.message().contains("EXPORT_FILE_EXISTS"));
    let err = LutGenerationError::WriteError("disk full".to_string());
    assert!(err.message().contains("EXPORT_WRITE_ERROR"));
}
