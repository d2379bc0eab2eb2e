use mengxi::validate::{human_path, result_heading, status_label, summarize_validation, validation_exit_code, validation_summary_line};

#[test]
fn test_human_path_mapping() {
    assert_eq!(human_path("srgb_to_oklab_roundtrip"), "sRGB");
    assert_eq!(human_path("acescct_to_oklab_roundtrip"), "ACEScct");
    assert_eq!(human_path("unknown"), "unknown");
}

#[test]
fn status_labels_name_pass_and_fail() {
    assert_eq!(status_label(true), "\u{2713} PASS");
    assert_eq!(status_label(false), "\u{2717} FAIL (threshold: 0.1)");
}

#[test]
fn heading_uses_the_human_name() {
    assert_eq!(result_heading("srgb_to_oklab_roundtrip"), "sRGB \u{2194} Oklab round-trip");
}

#[test]
fn exit_code_is_zero_exactly_when_all_passed() {
    let all = summarize_validation(&[true, true]);
    assert_eq!(validation_exit_code(&all), 0);
    let some = summarize_validation(&[true, false]);
    assert_eq!(validation_exit_code(&some), 1);
    let none = summarize_validation(&[]);
    assert_eq!(validation_exit_code(&none), 0);
}

#[test]
fn summary_counts_passes_and_failures() {
    let s = summarize_validation(&[true, false, true]);
    assert_eq!((s.total, s.passed, s.failed), (3, 2, 1));
    assert_eq!(validation_summary_line(&s), "Summary: 2/3 tests passed, 1 failed");
    let ok = summarize_validation(&[true, true]);
    assert_eq!(validation_summary_line(&ok), "Summary: 2/2 tests passed");
}
