use mengxi::color_science::{check_buffer, check_transform, lut_value_count, oklab_conversion_for, BufferKind, OklabConversion};
use mengxi::color_space::{
    color_tag_to_int, determine_color_tag, map_transfer_string_to_color_tag, ACESColorSpace,
    ColorScienceError, ColorSpaceTag,
};

#[test]
fn test_color_space_from_str() {
    assert_eq!(ACESColorSpace::from_str("aces2065-1"), ACESColorSpace::ACES2065_1);
    assert_eq!(ACESColorSpace::from_str("aces2065_1"), ACESColorSpace::ACES2065_1);
    assert_eq!(ACESColorSpace::from_str("ap0"), ACESColorSpace::ACES2065_1);
    assert_eq!(ACESColorSpace::from_str("ACEScg"), ACESColorSpace::ACEScg);
    assert_eq!(ACESColorSpace::from_str("ap1"), ACESColorSpace::ACEScg);
    assert_eq!(ACESColorSpace::from_str("acescct"), ACESColorSpace::ACEScct);
    assert_eq!(ACESColorSpace::from_str("rec709"), ACESColorSpace::Rec709);
    assert_eq!(ACESColorSpace::from_str("srgb"), ACESColorSpace::Rec709);
    assert_eq!(ACESColorSpace::from_str("unknown"), ACESColorSpace::ACEScg);
}

#[test]
fn test_color_space_as_int() {
    assert_eq!(ACESColorSpace::ACES2065_1.as_int(), 10);
    assert_eq!(ACESColorSpace::ACEScg.as_int(), 11);
    assert_eq!(ACESColorSpace::ACEScct.as_int(), 12);
    assert_eq!(ACESColorSpace::Rec709.as_int(), 20);
}

#[test]
fn test_color_space_is_log() {
    assert!(ACESColorSpace::ACEScct.is_log());
    assert!(!ACESColorSpace::ACEScg.is_log());
    assert!(!ACESColorSpace::ACES2065_1.is_log());
    assert!(!ACESColorSpace::Rec709.is_log());
}

#[test]
fn test_map_transfer_string_to_color_tag() {
    assert_eq!(map_transfer_string_to_color_tag("printing_density"), "log");
    assert_eq!(map_transfer_string_to_color_tag("logarithmic"), "log");
    assert_eq!(map_transfer_string_to_color_tag("bt709"), "video");
    assert_eq!(map_transfer_string_to_color_tag("bt601_bg"), "video");
    assert_eq!(map_transfer_string_to_color_tag("smpte_274m"), "video");
    assert_eq!(map_transfer_string_to_color_tag("linear"), "linear");
    assert_eq!(map_transfer_string_to_color_tag("user_defined"), "linear");
}

#[test]
fn test_transfer_string_mapping() {
    assert_eq!(map_transfer_string_to_color_tag("printing_density"), "log");
    assert_eq!(map_transfer_string_to_color_tag("logarithmic"), "log");
    assert_eq!(map_transfer_string_to_color_tag("bt709"), "video");
    assert_eq!(map_transfer_string_to_color_tag("bt601_bg"), "video");
    assert_eq!(map_transfer_string_to_color_tag("smpte_274m"), "video");
    assert_eq!(map_transfer_string_to_color_tag("linear"), "linear");
    assert_eq!(map_transfer_string_to_color_tag("user_defined"), "linear");
}

#[test]
fn test_determine_color_tag_dpx() {
    assert_eq!(determine_color_tag("dpx", Some("printing_density")), "log");
    assert_eq!(determine_color_tag("dpx", Some("bt709")), "video");
    assert_eq!(determine_color_tag("dpx", None), "linear");
    assert_eq!(determine_color_tag("dpx", Some("unknown")), "linear");
}

#[test]
fn test_determine_color_tag_exr() {
    assert_eq!(determine_color_tag("exr", None), "linear");
    assert_eq!(determine_color_tag("exr", Some("anything")), "linear");
}

#[test]
fn test_determine_color_tag_mov() {
    assert_eq!(determine_color_tag("mov", None), "linear");
}

#[test]
fn test_color_tag_to_int() {
    assert_eq!(color_tag_to_int("linear"), 0);
    assert_eq!(color_tag_to_int("log"), 1);
    assert_eq!(color_tag_to_int("video"), 2);
    assert_eq!(color_tag_to_int("unknown"), 0);
}

#[test]
fn test_color_space_tag_from_str() {
    assert_eq!(ColorSpaceTag::parse("linear"), ColorSpaceTag::Linear);
    assert_eq!(ColorSpaceTag::parse("log"), ColorSpaceTag::Log);
    assert_eq!(ColorSpaceTag::parse("video"), ColorSpaceTag::Video);
    assert_eq!(ColorSpaceTag::parse("unknown"), ColorSpaceTag::Linear);
}

#[test]
fn test_color_space_tag_as_int() {
    assert_eq!(ColorSpaceTag::Linear.as_int(), 0);
    assert_eq!(ColorSpaceTag::Log.as_int(), 1);
    assert_eq!(ColorSpaceTag::Video.as_int(), 2);
}

#[test]
fn test_resolve_color_space_uses_explicit_aces_column() {
    assert_eq!(ACESColorSpace::parse("unknown_string"), ACESColorSpace::ACEScg);
    assert_eq!(ACESColorSpace::from_aces_column(None), ACESColorSpace::ACEScg);
    assert_eq!(ACESColorSpace::from_aces_column(Some("ACES2065-1")), ACESColorSpace::ACES2065_1);
    assert_eq!(ACESColorSpace::from_aces_column(Some("rec709")), ACESColorSpace::Rec709);
    assert_eq!(ACESColorSpace::infer_from_encoding_tag("linear"), ACESColorSpace::ACEScg);
    assert_eq!(ACESColorSpace::infer_from_encoding_tag("log"), ACESColorSpace::ACEScct);
    assert_eq!(ACESColorSpace::infer_from_encoding_tag("video"), ACESColorSpace::Rec709);
}

#[test]
fn test_log_data_rejected() {
    match check_transform(3, ACESColorSpace::ACEScct) {
        Err(ColorScienceError::LogDataRequiresConversion(msg)) => assert!(msg.contains("log-encoded")),
        other => panic!("Expected LogDataRequiresConversion, got: {:?}", other),
    }
}

#[test]
fn test_too_few_pixels() {
    assert!(check_transform(1, ACESColorSpace::ACEScg).is_err());
    assert!(check_transform(3, ACESColorSpace::ACEScg).is_ok());
}

#[test]
fn test_generate_lut_grid_size_too_small() {
    assert!(lut_value_count(1, ACESColorSpace::ACEScg).is_err());
}

#[test]
fn test_generate_lut_grid_size_too_large() {
    assert!(lut_value_count(257, ACESColorSpace::ACEScg).is_err());
}

#[test]
fn lut_value_count_is_three_per_grid_point() {
    assert_eq!(lut_value_count(2, ACESColorSpace::ACEScg).unwrap(), 24);
    assert_eq!(lut_value_count(33, ACESColorSpace::ACEScg).unwrap(), 33 * 33 * 33 * 3);
}

#[test]
fn test_generate_lut_log_rejected() {
    match lut_value_count(2, ACESColorSpace::ACEScct) {
        Err(ColorScienceError::LogDataRequiresConversion(msg)) => assert!(msg.contains("log-encoded")),
        other => panic!("Expected LogDataRequiresConversion, got: {:?}", other),
    }
}

#[test]
fn test_rgb_to_oklab_batch_invalid_tag() {
    let err = oklab_conversion_for("unknown").unwrap_err();
    assert!(err.message().contains("COLOR_SCIENCE_UNSUPPORTED"));
}

#[test]
fn oklab_conversion_follows_the_tag() {
    assert_eq!(oklab_conversion_for("linear").unwrap(), OklabConversion::Linear);
    assert_eq!(oklab_conversion_for("video").unwrap(), OklabConversion::Srgb);
    assert_eq!(oklab_conversion_for("log").unwrap(), OklabConversion::AcesCct);
}

#[test]
fn test_rgb_to_oklab_batch_empty_returns_error() {
    assert!(check_buffer(BufferKind::Pixel, 0).is_err());
    assert!(check_buffer(BufferKind::Pixel, 4).is_err());
    assert!(check_buffer(BufferKind::Pixel, 3).is_ok());
}

#[test]
fn tag_readings_agree() {
    for s in ["linear", "log", "video", "LOG", "", "acescct"] {
        assert_eq!(ColorSpaceTag::parse(s).as_int(), color_tag_to_int(s));
    }
    for (format, transfer) in [("dpx", Some("logarithmic")), ("dpx", Some("bt709")), ("dpx", None), ("exr", Some("logarithmic"))] {
        let tag = determine_color_tag(format, transfer);
        assert!(["linear", "log", "video"].contains(&tag.as_str()));
        assert_eq!(ColorSpaceTag::parse(&tag).as_int(), color_tag_to_int(&tag));
    }
}
