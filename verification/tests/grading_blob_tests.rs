use mengxi::grading_blob::GradingFeatureBits;

fn bits(v: &[f64]) -> Vec<u64> {
    v.iter().map(|x| x.to_bits()).collect()
}

fn moments(v: [f64; 12]) -> [u64; 12] {
    let mut m = [0u64; 12];
    for i in 0..12 {
        m[i] = v[i].to_bits();
    }
    m
}

fn populated() -> GradingFeatureBits {
    GradingFeatureBits {
        hist_l: bits(&(0..64).map(|i| i as f64 * 0.1).collect::<Vec<_>>()),
        hist_a: bits(&(0..64).map(|i| (i as f64 - 32.0) * 0.01).collect::<Vec<_>>()),
        hist_b: bits(&(0..64).map(|i| (63 - i) as f64 * 0.05).collect::<Vec<_>>()),
        moments: moments([0.5, 0.2, 0.1, -0.3, -0.03, 0.15, 0.05, 2.1, 0.01, 0.08, -0.02, 0.5]),
    }
}

fn zeros() -> GradingFeatureBits {
    GradingFeatureBits { hist_l: bits(&[0.0; 64]), hist_a: bits(&[0.0; 64]), hist_b: bits(&[0.0; 64]), moments: [0; 12] }
}

#[test]
fn round_trip_populated_data() {
    let original = populated();
    let blob = original.to_blob();
    assert_eq!(blob.len(), original.total_blob_size());
    let restored = GradingFeatureBits::from_blob(&blob, 64).unwrap();
    assert_eq!(restored, original);
}

#[test]
fn round_trip_all_zeros() {
    let original = zeros();
    let blob = original.to_blob();
    assert_eq!(blob.len(), original.total_blob_size());
    assert_eq!(GradingFeatureBits::from_blob(&blob, 64).unwrap(), original);
}

#[test]
fn round_trip_special_values() {
    let mut original = zeros();
    original.hist_l[0] = f64::INFINITY.to_bits();
    original.hist_a[1] = f64::NEG_INFINITY.to_bits();
    original.hist_b[2] = f64::MIN_POSITIVE.to_bits();
    original.moments[3] = f64::MAX.to_bits();
    let blob = original.to_blob();
    assert_eq!(GradingFeatureBits::from_blob(&blob, 64).unwrap(), original);
}

#[test]
fn round_trip_nan_values() {
    let mut original = zeros();
    original.hist_l[5] = f64::NAN.to_bits();
    let restored = GradingFeatureBits::from_blob(&original.to_blob(), 64).unwrap();
    assert!(f64::from_bits(restored.hist_l[5]).is_nan());
}

#[test]
fn from_blob_too_short() {
    let result = GradingFeatureBits::from_blob(&vec![0u8; 100], 64);
    let msg = result.unwrap_err().message();
    assert!(msg.contains("expected 1632 bytes"), "unexpected error: {}", msg);
    assert!(msg.contains("got 100"), "unexpected error: {}", msg);
}

#[test]
fn from_blob_too_long() {
    let msg = GradingFeatureBits::from_blob(&vec![0u8; 2000], 64).unwrap_err().message();
    assert!(msg.contains("expected 1632 bytes"));
    assert!(msg.contains("got 2000"));
}

#[test]
fn from_blob_empty() {
    assert!(GradingFeatureBits::from_blob(&[], 64).is_err());
}

#[test]
fn blob_size_64_bins() {
    let features = zeros();
    assert_eq!(features.total_blob_size(), 1632);
    assert_eq!(features.total_blob_size(), 3 * 64 * 8 + 12 * 8);
}

#[test]
fn to_blob_exact_size() {
    let features = GradingFeatureBits {
        hist_l: bits(&[1.0; 64]),
        hist_a: bits(&[2.0; 64]),
        hist_b: bits(&[3.0; 64]),
        moments: moments([0.1, 0.2, 0.3, 0.4, 0.5, 0.6, 0.7, 0.8, 0.9, 1.0, 1.1, 1.2]),
    };
    assert_eq!(features.to_blob().len(), features.total_blob_size());
}

#[test]
fn blob_preserves_byte_order() {
    let mut features = zeros();
    features.hist_l[0] = 1.0f64.to_bits();
    let blob = features.to_blob();
    assert_eq!(blob[0..8], [0, 0, 0, 0, 0, 0, 0xF0, 0x3F]);
}

#[test]
fn from_blob_off_by_one_short() {
    let expected = 3 * 64 * 8 + 12 * 8;
    let msg = GradingFeatureBits::from_blob(&vec![0u8; expected - 1], 64).unwrap_err().message();
    assert!(msg.contains(&format!("expected {} bytes", expected)));
}

#[test]
fn from_blob_off_by_one_long() {
    let expected = 3 * 64 * 8 + 12 * 8;
    let msg = GradingFeatureBits::from_blob(&vec![0u8; expected + 1], 64).unwrap_err().message();
    assert!(msg.contains(&format!("expected {} bytes", expected)));
}

#[test]
fn error_display_format_prefix() {
    let msg = GradingFeatureBits::from_blob(&[], 64).unwrap_err().message();
    assert!(msg.starts_with("GRADING_FEATURE_DECODE_ERROR -- "), "got: {}", msg);
}

#[test]
fn blob_error_text_is_exact() {
    let msg = GradingFeatureBits::from_blob(&[0u8; 10], 1).unwrap_err().message();
    assert_eq!(msg, "GRADING_FEATURE_DECODE_ERROR -- expected 120 bytes (1 bins), got 10");
}

#[test]
fn separate_blobs_round_trip_populated() {
    let original = populated();
    let restored = GradingFeatureBits::from_separate_blobs(
        &original.hist_l_blob(),
        &original.hist_a_blob(),
        &original.hist_b_blob(),
        &original.moments_blob(),
        64,
    )
    .unwrap();
    assert_eq!(restored, original);
}

#[test]
fn separate_blobs_match_combined_blob() {
    let features = populated();
    let combined = features.to_blob();
    let separate = GradingFeatureBits::from_separate_blobs(
        &features.hist_l_blob(),
        &features.hist_a_blob(),
        &features.hist_b_blob(),
        &features.moments_blob(),
        64,
    )
    .unwrap();
    assert_eq!(separate, GradingFeatureBits::from_blob(&combined, 64).unwrap());
    let cs = 64 * 8;
    assert_eq!(features.hist_l_blob(), combined[0..cs]);
    assert_eq!(features.hist_a_blob(), combined[cs..2 * cs]);
    assert_eq!(features.hist_b_blob(), combined[2 * cs..3 * cs]);
    assert_eq!(features.moments_blob(), combined[3 * cs..3 * cs + 96]);
}

#[test]
fn separate_blobs_wrong_size_hist_l() {
    let result = GradingFeatureBits::from_separate_blobs(&vec![0u8; 100], &vec![0u8; 512], &vec![0u8; 512], &vec![0u8; 48], 64);
    assert!(result.unwrap_err().message().contains("hist_l expected 512 bytes"));
}

#[test]
fn separate_blobs_wrong_size_moments() {
    let result = GradingFeatureBits::from_separate_blobs(&vec![0u8; 512], &vec![0u8; 512], &vec![0u8; 512], &vec![0u8; 40], 64);
    assert!(result.unwrap_err().message().contains("moments expected 96 bytes"));
}

#[test]
fn channel_blob_exact_sizes() {
    let features = populated();
    assert_eq!(features.hist_l_blob().len(), features.channel_blob_size());
    assert_eq!(features.hist_a_blob().len(), features.channel_blob_size());
    assert_eq!(features.hist_b_blob().len(), features.channel_blob_size());
    assert_eq!(features.moments_blob().len(), GradingFeatureBits::moments_blob_size());
}

#[test]
fn channel_blob_preserves_byte_order() {
    let mut features = zeros();
    features.hist_l[0] = 1.0f64.to_bits();
    features.hist_a[1] = 2.0f64.to_bits();
    assert_eq!(features.hist_l_blob()[0..8], [0, 0, 0, 0, 0, 0, 0xF0, 0x3F]);
    assert_eq!(features.hist_a_blob()[8..16], [0, 0, 0, 0, 0, 0, 0, 0x40]);
}
