use mengxi::movie_fingerprint::{
    check_center_column, check_cineiris, check_image_data, check_request, check_stitch,
    diameter_too_large_error, engine_failure, fingerprint_output, plan_outputs, FingerprintMode,
    read_strip_bytes, FrameTally, MovieFingerprintError, RequestProblem,
};

fn invalid(m: &str) -> MovieFingerprintError {
    MovieFingerprintError::InvalidInput(m.to_string())
}

#[test]
fn test_generate_fingerprint_empty_paths() {
    let p = check_request(0, &FingerprintMode::Strip).unwrap_err();
    assert_eq!(p, RequestProblem::NoFrames);
    let e = p.simple_error().unwrap();
    assert!(e.message().contains("no frame paths"));
}

#[test]
fn cineiris_diameter_is_bounded() {
    assert_eq!(check_request(3, &FingerprintMode::CineIris { diameter: 0 }), Err(RequestProblem::ZeroDiameter));
    assert_eq!(check_request(3, &FingerprintMode::Both { diameter: 5000 }), Err(RequestProblem::DiameterTooLarge(5000)));
    assert_eq!(check_request(3, &FingerprintMode::CineIris { diameter: 4096 }), Ok(()));
    assert!(RequestProblem::DiameterTooLarge(5000).simple_error().is_none());
    assert_eq!(
        diameter_too_large_error(5000, "0.3"),
        invalid("diameter 5000 exceeds maximum 4096 (would allocate ~0.3 GB)")
    );
}

#[test]
fn mode_diameter_and_thumbnails() {
    assert_eq!(FingerprintMode::Strip.diameter(), None);
    assert_eq!(FingerprintMode::CineIris { diameter: 512 }.diameter(), Some(512));
    assert_eq!(FingerprintMode::Both { diameter: 256 }.diameter(), Some(256));
    let print = FingerprintMode::CinePrint {
        thumbnails: 6,
        watermark_path: None,
        watermark_position: "bottom-right".to_string(),
        show_ep_label: false,
    };
    assert_eq!(print.thumbnail_count(), 6);
    assert_eq!(FingerprintMode::Strip.thumbnail_count(), 0);
}

#[test]
fn test_stitch_fingerprint_strip_zero_frames() {
    assert_eq!(check_stitch(9, 0, 3), Err(invalid("num_frames must be non-zero")));
    assert_eq!(check_stitch(9, 1, 3), Ok(()));
    assert_eq!(
        check_stitch(8, 1, 3),
        Err(invalid("columns length 8 does not match num_frames 1 * frame_height 3 * 3 = 9"))
    );
}

#[test]
fn test_cineiris_transform_zero_diameter() {
    assert_eq!(check_cineiris(27, 3, 3, 0), Err(invalid("diameter must be non-zero")));
    assert_eq!(check_cineiris(27, 3, 3, 8), Ok(()));
}

#[test]
fn test_ffi_extract_center_column_zero_dims() {
    assert!(check_center_column(9, 0, 3).is_err());
    assert!(check_center_column(9, 3, 0).is_err());
}

#[test]
fn test_ffi_extract_center_column_wrong_length() {
    assert!(check_center_column(6, 3, 3).is_err());
    assert!(check_center_column(27, 3, 3).is_ok());
}

#[test]
fn test_save_png_wrong_length() {
    assert!(check_image_data(5, 2, 1).is_err());
    assert!(check_image_data(6, 2, 1).is_ok());
}

#[test]
fn engine_failures_carry_the_code() {
    assert_eq!(
        engine_failure("mengxi_stitch_strip", -3),
        MovieFingerprintError::FfiError("mengxi_stitch_strip returned error code -3".to_string())
    );
}

#[test]
fn frames_of_different_size_are_refused() {
    let mut t = FrameTally::new(3, &FingerprintMode::Strip);
    assert_eq!(t.accept_frame(0, 4, 2), Ok(false));
    assert_eq!(
        t.accept_frame(1, 5, 2),
        Err(invalid("frame 1 has width 5 but expected 4 (all frames must have same dimensions)"))
    );
    t.skip_frame();
    assert_eq!((t.frame_count, t.skipped, t.frame_width, t.frame_height), (1, 1, 4, 2));
}

#[test]
fn thumbnails_are_spread_over_the_frames() {
    let mode = FingerprintMode::CinePrint {
        thumbnails: 2,
        watermark_path: None,
        watermark_position: "bottom-right".to_string(),
        show_ep_label: false,
    };
    let mut t = FrameTally::new(4, &mode);
    assert_eq!(t.thumb_interval, 2);
    let taken: Vec<bool> = (0..4).map(|i| t.accept_frame(i, 1, 1).unwrap()).collect();
    assert_eq!(taken, vec![true, false, true, false]);
    assert_eq!(t.thumbs_taken, 2);
}

#[test]
fn outputs_are_named_after_the_video() {
    let plan = plan_outputs(&FingerprintMode::Both { diameter: 64 }, "/out", Some("film"));
    assert_eq!(plan.strip_path.as_deref(), Some("/out/film_strip.png"));
    assert_eq!(plan.cineiris, Some(("/out/film_cineiris.png".to_string(), 64)));
    assert_eq!(plan.cineprint_path, None);
    let plan = plan_outputs(&FingerprintMode::Strip, "out/", None);
    assert_eq!(plan.strip_path.as_deref(), Some("out/fingerprint_strip.png"));
    let out = fingerprint_output(plan, 12);
    assert_eq!(out.strip_path.as_deref(), Some("out/fingerprint_strip.png"));
    assert_eq!(out.cineiris_path, None);
    assert_eq!(out.frame_count, 12);
}

#[test]
fn strip_bytes_decode_to_rgb_samples() {
    let img = image::RgbImage::from_raw(2, 1, vec![255, 0, 0, 10, 20, 30]).unwrap();
    let mut png = Vec::new();
    img.write_to(&mut std::io::Cursor::new(&mut png), image::ImageFormat::Png).unwrap();
    let (w, h, samples) = read_strip_bytes(&png).unwrap();
    assert_eq!((w, h), (2, 1));
    assert_eq!(samples, vec![255, 0, 0, 10, 20, 30]);
}

#[test]
fn strip_bytes_that_do_not_decode() {
    match read_strip_bytes(b"not an image") {
        Err(MovieFingerprintError::IoError(m)) => assert!(m.starts_with("failed to decode image: ")),
        other => panic!("expected an I/O error, got {:?}", other),
    }
}
