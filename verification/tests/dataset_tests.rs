use mengxi::dataset::{check_dataset_dir, check_dataset_entries, dataset_status, DatasetError, DatasetSummary};
use mengxi::dataset::{
    dataset_exit_code, dataset_summary_line, dedup_vocabulary, default_vocabulary,
    is_dataset_image_extension, sort_names, summarize_entries, validate_entry, vocabulary_from,
    EntryMetadata, MetadataRead,
};

fn strings(v: &[&str]) -> Vec<String> {
    v.iter().map(|s| s.to_string()).collect()
}

fn meta(material: &str, cs: &str, tags: &[&str]) -> MetadataRead {
    MetadataRead::Parsed(EntryMetadata {
        material_type: material.to_string(),
        color_space: cs.to_string(),
        grading_style_tags: strings(tags),
    })
}

#[test]
fn test_default_vocabulary_contains_expected_tags() {
    let v = default_vocabulary();
    assert!(v.iter().any(|t| t == "high_contrast"));
    assert!(v.iter().any(|t| t == "warm"));
    assert!(v.iter().any(|t| t == "desaturated"));
    assert!(v.iter().any(|t| t == "film_emulation"));
    assert!(v.iter().any(|t| t == "teal_orange"));
}

#[test]
fn test_validate_entry_missing_metadata() {
    let vocab = default_vocabulary();
    let result = validate_entry("frame.dpx".to_string(), MetadataRead::Missing("frame.json".to_string()), &vocab);
    assert_eq!(result.status, "invalid");
    assert!(result.errors[0].contains("missing metadata JSON"));
    assert_eq!(result.errors, vec!["missing metadata JSON: frame.json".to_string()]);
}

#[test]
fn test_validate_entry_invalid_json() {
    let vocab = default_vocabulary();
    let result = validate_entry(
        "frame.dpx".to_string(),
        MetadataRead::Malformed("key must be a string at line 1 column 2".to_string()),
        &vocab,
    );
    assert_eq!(result.status, "invalid");
    assert!(result.errors.iter().any(|e| e.contains("invalid metadata JSON")));
}

#[test]
fn unreadable_metadata_is_reported() {
    let vocab = default_vocabulary();
    let result = validate_entry("a.exr".to_string(), MetadataRead::Unreadable("denied".to_string()), &vocab);
    assert_eq!(result.errors, vec!["cannot read metadata JSON: denied".to_string()]);
    assert_eq!(result.image, "a.exr");
}

#[test]
fn test_validate_entry_valid() {
    let vocab = default_vocabulary();
    let result = validate_entry("frame.dpx".to_string(), meta("dpx", "acescct", &["high_contrast", "warm"]), &vocab);
    assert_eq!(result.status, "valid");
    assert!(result.errors.is_empty());
}

#[test]
fn test_validate_entry_unknown_tag() {
    let vocab = default_vocabulary();
    let result = validate_entry("frame.exr".to_string(), meta("exr", "linear", &["high_contrast", "my_custom_tag"]), &vocab);
    assert_eq!(result.status, "invalid");
    assert!(result.errors.iter().any(|e| e.contains("unknown grading_style_tag") && e.contains("my_custom_tag")));
}

#[test]
fn test_validate_entry_empty_tags() {
    let vocab = default_vocabulary();
    let result = validate_entry("frame.dpx".to_string(), meta("dpx", "srgb", &[]), &vocab);
    assert_eq!(result.status, "invalid");
    assert!(result.errors.iter().any(|e| e.contains("grading_style_tags is empty")));
}

#[test]
fn test_validate_entry_unknown_material_type() {
    let vocab = default_vocabulary();
    let result = validate_entry("frame.dpx".to_string(), meta("tiff", "srgb", &["warm"]), &vocab);
    assert_eq!(result.status, "invalid");
    assert!(result.errors.iter().any(|e| e.contains("unknown material_type")));
}

#[test]
fn test_validate_entry_with_custom_vocabulary() {
    let custom = strings(&["custom_tag_a", "custom_tag_b"]);
    let result = validate_entry("frame.dpx".to_string(), meta("dpx", "srgb", &["custom_tag_a"]), &custom);
    assert_eq!(result.status, "valid");
    let vocab = default_vocabulary();
    let result2 = validate_entry("frame.dpx".to_string(), meta("dpx", "srgb", &["custom_tag_a"]), &vocab);
    assert_eq!(result2.status, "invalid");
    assert!(result2.errors.iter().any(|e| e.contains("unknown grading_style_tag")));
}

#[test]
fn test_load_vocabulary_deduplicates() {
    let vocab = vocabulary_from(Some(strings(&["warm", "warm", "cool", "cool"])));
    assert_eq!(vocab.len(), 2);
}

#[test]
fn dedup_trims_and_ignores_case() {
    let v = dedup_vocabulary(&strings(&[" Warm ", "warm", "", "cool"]));
    assert_eq!(v, strings(&["Warm", "cool"]));
}

#[test]
fn missing_vocabulary_file_gives_the_defaults() {
    assert_eq!(vocabulary_from(None), default_vocabulary());
}

#[test]
fn only_dpx_and_exr_are_dataset_images() {
    assert!(is_dataset_image_extension("dpx"));
    assert!(is_dataset_image_extension("EXR"));
    assert!(!is_dataset_image_extension("mov"));
    assert!(!is_dataset_image_extension("json"));
}

#[test]
fn summary_counts_valid_and_invalid_entries() {
    let vocab = default_vocabulary();
    let results = vec![
        validate_entry("a.dpx".to_string(), meta("dpx", "srgb", &["warm"]), &vocab),
        validate_entry("b.dpx".to_string(), MetadataRead::Missing("b.json".to_string()), &vocab),
    ];
    let s = summarize_entries(&results);
    assert_eq!((s.total, s.valid, s.invalid), (2, 1, 1));
    assert_eq!(dataset_exit_code(&s), 1);
    assert_eq!(dataset_summary_line(&s), "Summary: 2 total, 1 valid, 1 invalid");
}

#[test]
fn names_come_out_sorted() {
    let sorted = sort_names(strings(&["b.dpx", "a.exr", "ab.dpx", "a.dpx"]));
    assert_eq!(sorted, strings(&["a.dpx", "a.exr", "ab.dpx", "b.dpx"]));
    assert!(sort_names(Vec::new()).is_empty());
}

#[test]
fn dataset_directory_checks() {
    let e = check_dataset_dir("/nonexistent/path", false).unwrap_err();
    assert_eq!(e, DatasetError::DirNotFound("/nonexistent/path".to_string()));
    assert_eq!(e.code(), "DATASET_DIR_NOT_FOUND");
    assert_eq!(e.message(), "directory not found: /nonexistent/path");
    assert_eq!(e.exit_code(), 1);
    assert!(check_dataset_dir("/data", true).is_ok());
    let e = check_dataset_entries("/data", 0).unwrap_err();
    assert_eq!(e.code(), "DATASET_EMPTY");
    assert_eq!(e.message(), "no supported image files found in: /data");
    assert_eq!(e.exit_code(), 1);
    assert!(check_dataset_entries("/data", 3).is_ok());
    assert_eq!(dataset_status(&DatasetSummary { total: 2, valid: 2, invalid: 0 }), "ok");
    assert_eq!(dataset_status(&DatasetSummary { total: 2, valid: 1, invalid: 1 }), "error");
}
