use mengxi::downsample::{needs_downsample, source_range};
use mengxi::lut::{check_lut_files, diff_shapes, LutDiffError};
use mengxi::analytics::{calibration_metrics_from, calibration_queries, named_counts, user_stats_from, vocabulary_metrics_from, week_before, WEEK_SECS};
use mengxi::grading_blob::common_bins;
use mengxi::explorer::ExplorerApp;
use mengxi::keys::{Key, KeyKind};
use mengxi::audio_waveform::{
    decode_pcm, ffmpeg_failure, ffmpeg_launch_failure, generate_waveform_image, pcm_args,
    video_not_found, waveform_output,
};
use mengxi::consistency::{check_report_projects, project_pairs, select_report_projects, CompareError, ConsistencyError};
use mengxi::movie_search::{is_library_candidate, kept_results, library_not_found, query_not_found, result_name};
use mengxi::text::{format_decimal, parse_i64};

#[test]
fn test_invalid_strip_width() {
    let err = generate_waveform_image("nonexistent.mp4", 0, "out.png", 64, 8000).unwrap_err();
    assert!(err.message().contains("strip_width"));
    let err = generate_waveform_image("a.mp4", 10, "out.png", 0, 8000).unwrap_err();
    assert_eq!(err.message(), "AUDIO_WAVEFORM_INVALID_INPUT -- waveform_height must be non-zero");
}

#[test]
fn waveform_job_runs_ffmpeg_on_the_video() {
    let job = generate_waveform_image("film.mov", 300, "/out/w.png", 64, 8000).unwrap();
    assert_eq!(job.ffmpeg_args, pcm_args("film.mov", 8000));
    assert_eq!(
        job.ffmpeg_args,
        ["-i", "film.mov", "-vn", "-ac", "1", "-ar", "8000", "-f", "s16le", "-acodec", "pcm_s16le", "-"]
            .iter()
            .map(|s| s.to_string())
            .collect::<Vec<_>>()
    );
    assert_eq!((job.columns, job.height, job.output_path.as_str()), (300, 64, "/out/w.png"));
    let out = waveform_output(&job, 1234);
    assert_eq!((out.waveform_path.as_str(), out.sample_count, out.bin_count), ("/out/w.png", 1234, 300));
}

#[test]
fn pcm_is_little_endian_and_odd_bytes_are_dropped() {
    assert_eq!(decode_pcm(&[0x01, 0x00, 0xff, 0xff, 0x00, 0x80, 0x07]).unwrap(), vec![1, -1, i16::MIN]);
    assert_eq!(
        decode_pcm(&[7]).unwrap_err().message(),
        "AUDIO_WAVEFORM_PROCESSING_ERROR -- no audio data extracted (possibly no audio track)"
    );
}

#[test]
fn ffmpeg_failures_show_five_stderr_lines() {
    let e = ffmpeg_failure(Some(1), "a\nb\nc\nd\ne\nf");
    assert_eq!(e.message(), "AUDIO_WAVEFORM_FFMPEG_ERROR -- ffmpeg exited with code Some(1): a; b; c; d; e");
    let e = ffmpeg_failure(None, "");
    assert_eq!(e.message(), "AUDIO_WAVEFORM_FFMPEG_ERROR -- ffmpeg exited with code None: ");
    assert!(ffmpeg_launch_failure(true, "x").message().contains("ffmpeg not found"));
    assert_eq!(ffmpeg_launch_failure(false, "denied").message(), "AUDIO_WAVEFORM_FFMPEG_ERROR -- failed to run ffmpeg: denied");
    assert_eq!(video_not_found("a.mov").message(), "AUDIO_WAVEFORM_INVALID_INPUT -- video file not found: a.mov");
}

#[test]
fn pairs_are_listed_once_in_order() {
    assert_eq!(project_pairs(3), vec![(0, 1), (0, 2), (1, 2)]);
    assert!(project_pairs(1).is_empty());
    assert_eq!(project_pairs(5).len(), 10);
}

#[test]
fn reports_need_projects() {
    assert!(check_report_projects(0).unwrap_err().message().contains("no projects specified"));
    assert!(check_report_projects(2).is_ok());
    assert_eq!(
        ConsistencyError::ProjectNotFound("x".to_string()).message(),
        "CONSISTENCY_PROJECT_NOT_FOUND -- project 'x' not found"
    );
    let _ = CompareError::NotFound(1).message();
}

#[test]
fn test_visual_search_nonexistent_query() {
    assert!(query_not_found("/nonexistent.png").message().contains("query strip"));
    assert!(library_not_found("/nope").message().contains("library directory not found"));
}

#[test]
fn library_candidates_are_other_png_files() {
    assert!(is_library_candidate(Some("png"), false));
    assert!(!is_library_candidate(Some("png"), true));
    assert!(!is_library_candidate(Some("PNG"), false));
    assert!(!is_library_candidate(None, false));
    assert_eq!(result_name(Some("film_a")), "film_a");
    assert_eq!(result_name(None), "unknown");
}

#[test]
fn test_visual_search_limit() {
    assert_eq!(kept_results(5, 2).unwrap(), 2);
    assert_eq!(kept_results(1, 10).unwrap(), 1);
    assert!(kept_results(0, 10).unwrap_err().message().contains("MOVIE_SEARCH_NO_RESULTS"));
    assert!(kept_results(5, 0).is_err());
}

#[test]
fn calibration_metrics_keep_the_breakdown() {
    let m = calibration_metrics_from(5, vec![("a".to_string(), 3), ("b".to_string(), 2)], Some(77));
    assert_eq!(m.total_corrections, 5);
    assert_eq!(m.project_breakdown, vec![("a".to_string(), 3), ("b".to_string(), 2)]);
    assert_eq!(m.latest_correction_at, Some(77));
    let (count, _, latest) = calibration_queries(true);
    assert!(count.ends_with("WHERE created_at >= ?1"));
    assert_eq!(latest, "SELECT MAX(created_at) FROM calibration_activities WHERE created_at >= ?1");
    assert_eq!(calibration_queries(false).0, "SELECT COUNT(*) FROM calibration_activities");
}

#[test]
fn weeks_and_user_stats() {
    assert_eq!(week_before(1_000_000), 1_000_000 - WEEK_SECS);
    let s = user_stats_from("ann", 3, 1500, 2, None);
    assert_eq!((s.user.as_str(), s.session_count, s.avg_duration_ms, s.search_count), ("ann", 3, 1500, 2));
}

#[test]
fn decimal_text_round_trips() {
    assert_eq!(format_decimal(0), "0");
    assert_eq!(format_decimal(1234567890), "1234567890");
    let c: Vec<char> = "-42".chars().collect();
    assert_eq!(parse_i64(&c), Some(-42));
    let c: Vec<char> = "12x".chars().collect();
    assert_eq!(parse_i64(&c), None);
    let c: Vec<char> = "9223372036854775808".chars().collect();
    assert_eq!(parse_i64(&c), None);
}

#[test]
fn downsample_ranges_cover_the_source() {
    assert!(!needs_downsample(512, 512, 512));
    assert!(needs_downsample(4096, 2160, 512));
    assert!(needs_downsample(100, 600, 512));
    assert_eq!(source_range(0, 3, 2), (0, 3));
    assert_eq!(source_range(1, 3, 2), (1, 3));
    assert_eq!(source_range(0, 2, 1), (0, 2));
    assert_eq!(source_range(0, 4, 2), (0, 4));
    assert_eq!(source_range(1, 4, 2), (2, 4));
    let mut prev_end = 0;
    for t in 0..270 {
        let (a, b) = source_range(t, 2160, 270);
        assert_eq!(a, t * 8);
        assert!(a <= prev_end || t == 0);
        assert!(a < b && b <= 2160);
        prev_end = b;
    }
    assert_eq!(prev_end, 2160);
}

/// Average a 3-channel image over the ranges the library gives.
fn area_average(data: &[f64], w: usize, h: usize, nw: usize, nh: usize) -> Vec<f64> {
    let mut out = vec![0.0; nw * nh * 3];
    for ty in 0..nh {
        let (y0, y1) = source_range(ty, h, nh);
        for tx in 0..nw {
            let (x0, x1) = source_range(tx, w, nw);
            let mut sum = [0.0f64; 3];
            let mut count = 0usize;
            for sy in y0..y1 {
                for sx in x0..x1 {
                    for c in 0..3 {
                        sum[c] += data[(sy * w + sx) * 3 + c];
                    }
                    count += 1;
                }
            }
            for c in 0..3 {
                out[(ty * nw + tx) * 3 + c] = sum[c] / count as f64;
            }
        }
    }
    out
}

#[test]
fn downsample_3x2_to_2x1() {
    let data = vec![
        1.0, 0.0, 0.0, 0.0, 1.0, 0.0, 0.0, 0.0, 1.0,
        0.0, 0.0, 1.0, 0.0, 1.0, 0.0, 1.0, 0.0, 0.0,
    ];
    let result = area_average(&data, 3, 2, 2, 1);
    assert!((result[0] - 1.0 / 3.0).abs() < 1e-10);
    assert!((result[1] - 1.0 / 3.0).abs() < 1e-10);
    assert!((result[2] - 1.0 / 3.0).abs() < 1e-10);
    assert!((result[3] - 0.25).abs() < 1e-10);
    assert!((result[4] - 0.5).abs() < 1e-10);
    assert!((result[5] - 0.25).abs() < 1e-10);
}

#[test]
fn area_average_checkerboard() {
    let mut data = Vec::with_capacity(4 * 4 * 3);
    for i in 0..16 {
        if (i + (i / 4)) % 2 == 0 {
            data.extend_from_slice(&[1.0, 0.0, 0.0]);
        } else {
            data.extend_from_slice(&[0.0, 1.0, 1.0]);
        }
    }
    let result = area_average(&data, 4, 4, 2, 2);
    assert_eq!(result[0], 0.5);
    assert_eq!(result[1], 0.5);
    assert_eq!(result[2], 0.5);
}

#[test]
fn lut_diff_errors() {
    assert!(matches!(check_lut_files("a.cube", false, "b.cube", false), Err(LutDiffError::FileNotFound(p)) if p == "a.cube"));
    assert!(matches!(check_lut_files("a.cube", true, "b.cube", false), Err(LutDiffError::FileNotFound(p)) if p == "b.cube"));
    assert!(check_lut_files("a.cube", true, "b.cube", true).is_ok());
    assert!(matches!(diff_shapes(17, 0, 33, 0), Err(LutDiffError::GridSizeMismatch { a: 17, b: 33 })));
    assert!(matches!(diff_shapes(u32::MAX, 0, 2, 0), Err(LutDiffError::GridSizeMismatch { a: 4294967295, b: 2 })));
    assert!(matches!(diff_shapes(2, 23, 2, 24), Err(LutDiffError::ParseError(_))));
    assert_eq!(diff_shapes(2, 24, 2, 24).unwrap(), 8);
}

#[test]
fn named_counts_keep_names_and_order() {
    let rows = vec![("search".to_string(), 5i64), ("export".to_string(), 2), ("info".to_string(), 0)];
    assert_eq!(
        named_counts(rows),
        vec![("search".to_string(), 5usize), ("export".to_string(), 2), ("info".to_string(), 0)]
    );
    assert!(named_counts(Vec::new()).is_empty());
}

#[test]
fn vocabulary_metrics_from_counts() {
    let m = vocabulary_metrics_from(12, 3, vec![("warm".to_string(), 7), ("teal".to_string(), 4)]);
    assert_eq!(m.total_unique_tags, 12);
    assert_eq!(m.new_tags_last_week, 3);
    assert_eq!(m.top_tags, vec![("warm".to_string(), 7usize), ("teal".to_string(), 4)]);
}

#[test]
fn common_bins_needs_equal_counts() {
    assert_eq!(common_bins(&[]), None);
    assert_eq!(common_bins(&[64]), Some(64));
    assert_eq!(common_bins(&[64, 64, 64]), Some(64));
    assert_eq!(common_bins(&[64, 32]), None);
    assert_eq!(common_bins(&[64, 64, 16]), None);
}

#[test]
fn explorer_shows_frames_in_view() {
    let mut e = ExplorerApp::new(100, 10);
    assert!(e.shows_frame(0, 20));
    assert!(e.shows_frame(19, 20));
    assert!(!e.shows_frame(20, 20));
    e.handle_key(KeyKind::Press, Key::PageDown);
    assert_eq!(e.scroll_x(), 20);
    assert!(!e.shows_frame(19, 20));
    assert!(e.shows_frame(20, 20));
    assert!(e.shows_frame(39, 20));
    assert!(!e.shows_frame(40, 20));
}

#[test]
fn report_projects_are_selected() {
    let names: Vec<String> = ["a", "b", "c"].iter().map(|s| s.to_string()).collect();
    assert_eq!(select_report_projects(&names, &[Some(2), Some(0), Some(5)]).unwrap(), vec![0, 2]);
    assert!(matches!(select_report_projects(&names, &[Some(0), Some(0), Some(0)]), Err(ConsistencyError::NoFingerprints)));
    assert!(matches!(
        select_report_projects(&names, &[Some(3), None, None]),
        Err(ConsistencyError::ProjectNotFound(n)) if n == "b"
    ));
    assert!(matches!(select_report_projects(&names[..1], &[None]), Err(ConsistencyError::ProjectNotFound(n)) if n == "a"));
}
