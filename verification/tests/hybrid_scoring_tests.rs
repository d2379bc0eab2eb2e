use mengxi::hybrid_scoring::{check_color_space_gap, color_space_family, display_name, tag_overlap};

fn strings(v: &[&str]) -> Vec<String> {
    v.iter().map(|s| s.to_string()).collect()
}

#[test]
fn test_color_space_gap_same_family_video() {
    assert!(check_color_space_gap("video", "srgb").is_none());
    assert!(check_color_space_gap("srgb", "rec709").is_none());
    assert!(check_color_space_gap("video", "video").is_none());
}

#[test]
fn test_color_space_gap_same_family_log() {
    assert!(check_color_space_gap("acescct", "acescg").is_none());
    assert!(check_color_space_gap("log", "acescct").is_none());
}

#[test]
fn test_color_space_gap_same_family_linear() {
    assert!(check_color_space_gap("linear", "linear").is_none());
}

#[test]
fn test_color_space_gap_different_family_video_log() {
    let w = check_color_space_gap("video", "acescct").unwrap();
    assert!(w.contains("sRGB"));
    assert!(w.contains("ACEScct"));
    assert!(w.contains("large color space gap"));
}

#[test]
fn test_color_space_gap_different_family_video_linear() {
    let w = check_color_space_gap("srgb", "linear").unwrap();
    assert!(w.contains("sRGB"));
    assert!(w.contains("Linear"));
}

#[test]
fn test_color_space_gap_different_family_log_linear() {
    let w = check_color_space_gap("acescct", "linear").unwrap();
    assert!(w.contains("ACEScct"));
    assert!(w.contains("Linear"));
}

#[test]
fn test_color_space_gap_unknown_tag() {
    assert!(check_color_space_gap("video", "custom").is_some());
    assert!(check_color_space_gap("custom", "custom").is_none());
    assert!(check_color_space_gap("Custom", "custom").is_none());
    assert_eq!(
        check_color_space_gap("custom", "other").as_deref(),
        Some("reference (custom) \u{2194} candidate (other) \u{2014} large color space gap")
    );
}

#[test]
fn test_display_name_known_tags() {
    assert_eq!(display_name("video"), "sRGB");
    assert_eq!(display_name("srgb"), "sRGB");
    assert_eq!(display_name("rec709"), "sRGB");
    assert_eq!(display_name("acescct"), "ACEScct");
    assert_eq!(display_name("acescg"), "ACEScg");
    assert_eq!(display_name("linear"), "Linear");
    assert_eq!(display_name("log"), "Log");
}

#[test]
fn test_display_name_unknown_tag() {
    assert_eq!(display_name("custom"), "custom");
}

#[test]
fn families_group_tags() {
    assert_eq!(color_space_family("rec709"), color_space_family("video"));
    assert_eq!(color_space_family("acescg"), color_space_family("log"));
    assert_ne!(color_space_family("linear"), color_space_family("log"));
    assert_eq!(color_space_family("Custom"), "custom");
    assert_ne!(color_space_family("custom"), color_space_family("other"));
}

#[test]
fn test_tag_similarity_identical() {
    assert_eq!(tag_overlap(&strings(&["warm", "industrial"]), &strings(&["warm", "industrial"])), Some((2, 2)));
}

#[test]
fn test_tag_similarity_disjoint() {
    assert_eq!(tag_overlap(&strings(&["warm"]), &strings(&["cold"])), Some((0, 2)));
}

#[test]
fn test_tag_similarity_partial_overlap() {
    assert_eq!(tag_overlap(&strings(&["warm", "industrial"]), &strings(&["warm", "cold"])), Some((1, 3)));
}

#[test]
fn test_tag_similarity_both_empty() {
    assert_eq!(tag_overlap(&[], &[]), None);
}

#[test]
fn test_tag_similarity_query_empty() {
    assert_eq!(tag_overlap(&[], &strings(&["warm"])), None);
}

#[test]
fn test_tag_similarity_candidate_empty() {
    assert_eq!(tag_overlap(&strings(&["warm"]), &[]), None);
}

#[test]
fn test_tag_similarity_one_common() {
    assert_eq!(tag_overlap(&strings(&["a", "b", "c"]), &strings(&["c", "d", "e"])), Some((1, 5)));
}

#[test]
fn repeated_tags_count_once() {
    assert_eq!(tag_overlap(&strings(&["a", "a"]), &strings(&["a"])), Some((1, 1)));
}
