use mengxi::movie_fingerprint::MovieFingerprintError;
use mengxi::ppm::{parse_ppm_header, read_ppm};

fn ppm(header: &str, pixels: &[u8]) -> Vec<u8> {
    let mut v = header.as_bytes().to_vec();
    v.extend_from_slice(pixels);
    v
}

#[test]
fn test_read_ppm_valid() {
    let rgb: Vec<u8> = vec![255, 128, 0, 255, 128, 0, 255, 128, 0, 255, 128, 0];
    let img = read_ppm(&ppm("P6\n2 2\n255\n", &rgb)).unwrap();
    assert_eq!(img.width, 2);
    assert_eq!(img.height, 2);
    assert_eq!(img.samples.len(), 12);
    let px: Vec<f64> = img.samples.iter().map(|&s| s as f64 / img.maxval as f64).collect();
    assert!((px[0] - 1.0).abs() < 1e-6);
    assert!((px[1] - (128.0 / 255.0)).abs() < 1e-6);
    assert!((px[2] - 0.0).abs() < 1e-6);
}

#[test]
fn test_read_ppm_with_comments() {
    let data = ppm("P6\n# this is a comment\n2 1\n# another comment\n255\n", &[255, 0, 0, 0, 255, 0]);
    let img = read_ppm(&data).unwrap();
    assert_eq!((img.width, img.height), (2, 1));
    assert_eq!(img.samples, vec![255, 0, 0, 0, 255, 0]);
}

#[test]
fn test_read_ppm_wrong_magic() {
    let err = read_ppm(b"P3\n2 2\n255\n").unwrap_err();
    let text = err.message();
    assert!(text.contains("MOVIE_FINGERPRINT_PPM_PARSE_ERROR"), "error: {}", text);
    assert!(text.contains("expected P6"), "error: {}", text);
    assert_eq!(err, MovieFingerprintError::PpmParseError("expected P6 format, got 'P3'".to_string()));
}

#[test]
fn sixteen_bit_samples_are_big_endian() {
    let img = read_ppm(&ppm("P6 1 1 65535\n", &[0x01, 0x02, 0xff, 0xff, 0x00, 0x10])).unwrap();
    assert_eq!(img.maxval, 65535);
    assert_eq!(img.samples, vec![0x0102, 0xffff, 0x0010]);
}

#[test]
fn short_pixel_data_is_reported() {
    let err = read_ppm(&ppm("P6\n2 1\n255\n", &[1, 2, 3])).unwrap_err();
    assert_eq!(err, MovieFingerprintError::PpmParseError("insufficient pixel data: expected 6 bytes, got 3".to_string()));
}

#[test]
fn header_records_where_the_samples_start() {
    let data = ppm("P6\n2 1\n255\n", &[0; 6]);
    let h = parse_ppm_header(&data).unwrap();
    assert_eq!((h.width, h.height, h.maxval, h.data_start), (2, 1, 255, 11));
}

#[test]
fn missing_and_bad_fields_are_reported() {
    assert_eq!(read_ppm(b"").unwrap_err(), MovieFingerprintError::PpmParseError("missing magic number".to_string()));
    assert_eq!(read_ppm(b"P6\n").unwrap_err(), MovieFingerprintError::PpmParseError("missing width".to_string()));
    assert_eq!(read_ppm(b"P6 x").unwrap_err(), MovieFingerprintError::PpmParseError("invalid width: 'x'".to_string()));
}
