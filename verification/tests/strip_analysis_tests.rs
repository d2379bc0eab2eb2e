use mengxi::strip_analysis::{
    check_density_input, check_dna_input, check_dna_raw_len, check_mood_input, check_pair_count,
    check_pairs_input, check_scatter_input, check_scatter_raw, engine_call_failure,
    plan_scene_boundaries, plan_transfer_lut, ColorCategory, MoodCategory, PairType,
    DNA_COMPARISON_RAW_LEN, DNA_RAW_LEN, PAIRS_RAW_OUT_LEN,
};

#[test]
fn test_mood_category_descriptions() {
    assert_eq!(MoodCategory::Dark.description_zh(), "暗调");
    assert_eq!(MoodCategory::Vivid.description_en(), "Vivid");
    assert_eq!(MoodCategory::from_tag(2), Some(MoodCategory::Warm));
    assert_eq!(MoodCategory::from_tag(99), None);
}

#[test]
fn mood_tags_round_trip() {
    for t in 0..5 {
        let m = MoodCategory::from_tag(t).unwrap();
        assert_eq!(m.tag(), t);
    }
    assert_eq!(MoodCategory::from_tag(-1), None);
}

#[test]
fn test_pair_type_from_tag() {
    assert_eq!(PairType::from_tag(0), PairType::TealOrange);
    assert_eq!(PairType::from_tag(1), PairType::BlueYellow);
    assert_eq!(PairType::from_tag(2), PairType::RedCyan);
    assert_eq!(PairType::from_tag(3), PairType::MagentaGreen);
    assert_eq!(PairType::from_tag(4), PairType::Other);
    assert_eq!(PairType::from_tag(99), PairType::Other);
}

#[test]
fn test_pair_type_names() {
    assert_eq!(PairType::TealOrange.name(), "teal-orange");
    assert_eq!(PairType::BlueYellow.name(), "blue-yellow");
    assert_eq!(PairType::RedCyan.name(), "red-cyan");
    assert_eq!(PairType::MagentaGreen.name(), "magenta-green");
    assert_eq!(PairType::Other.name(), "other");
}

#[test]
fn test_extract_color_dna_zero_dims() {
    assert!(check_dna_input(12, 0, 2).is_err());
}

#[test]
fn test_extract_color_dna_short_strip() {
    assert!(check_dna_input(3, 2, 2).is_err());
    assert!(check_dna_input(12, 2, 2).is_ok());
}

#[test]
fn test_color_dna_from_raw_wrong_len() {
    assert!(check_dna_raw_len(10, DNA_RAW_LEN).is_err());
    assert!(check_dna_raw_len(18, DNA_RAW_LEN).is_ok());
    assert_eq!(check_dna_raw_len(10, DNA_RAW_LEN).unwrap_err().message(), "COLOR_DNA_INVALID_INPUT -- expected 18 elements, got 10");
}

#[test]
fn test_comparison_from_raw_wrong_len() {
    assert!(check_dna_raw_len(3, DNA_COMPARISON_RAW_LEN).is_err());
}

#[test]
fn test_mood_timeline_zero_dims() {
    assert!(check_mood_input(12, 0, 2).is_err());
}

#[test]
fn test_detect_pairs_zero_dims() {
    assert!(check_pairs_input(12, 0, 2).is_err());
}

#[test]
fn test_detect_pairs_short_strip() {
    assert!(check_pairs_input(3, 2, 2).is_err());
}

#[test]
fn test_dominant_pairs_result_from_raw_empty() {
    assert!(check_pair_count(PAIRS_RAW_OUT_LEN, 0).is_ok());
}

#[test]
fn test_dominant_pairs_result_from_raw_too_many() {
    assert!(check_pair_count(PAIRS_RAW_OUT_LEN, 7).is_err());
}

#[test]
fn test_extract_frame_scatter_zero_dims() {
    assert!(check_scatter_input(12, 0, 2).is_err());
}

#[test]
fn test_compute_scatter_density_zero_grid() {
    assert!(check_density_input(12, 2, 2, 0).is_err());
}

#[test]
fn test_color_scatter_from_raw_wrong_len() {
    assert!(check_scatter_raw(3, 2).is_err());
    assert!(check_scatter_raw(6, 2).is_ok());
}

#[test]
fn test_detect_zero_dims() {
    assert!(plan_scene_boundaries(12, 0, 2, 50).is_err());
}

#[test]
fn test_detect_too_many_boundaries() {
    assert!(plan_scene_boundaries(12, 2, 2, 2000).is_err());
}

#[test]
fn scene_boundary_buffer_has_room_for_each_boundary() {
    assert_eq!(plan_scene_boundaries(12, 2, 2, 0).unwrap(), 1 + 50 * 8);
    assert_eq!(plan_scene_boundaries(12, 2, 2, 3).unwrap(), 25);
}

#[test]
fn test_color_transfer_bad_grid_size() {
    assert!(plan_transfer_lut(2, 2, 2, 2, 0).is_ok());
    assert!(plan_transfer_lut(2, 2, 2, 2, 1).is_err());
    assert!(plan_transfer_lut(2, 2, 2, 2, 200).is_err());
}

#[test]
fn test_color_transfer_zero_dims() {
    assert!(plan_transfer_lut(0, 2, 2, 2, 3).is_err());
}

#[test]
fn transfer_lut_defaults_to_33_points() {
    assert_eq!(plan_transfer_lut(2, 2, 2, 2, 0).unwrap(), (33, 33 * 33 * 33 * 3));
}

#[test]
fn color_categories_are_in_order() {
    let all = ColorCategory::all();
    for (i, c) in all.iter().enumerate() {
        assert_eq!(c.index(), i);
    }
    assert_eq!(ColorCategory::Red.name(), all[0].name());
}

#[test]
fn engine_failure_names_the_call() {
    assert_eq!(engine_call_failure("mengxi_detect", -2), "mengxi_detect returned -2");
}
