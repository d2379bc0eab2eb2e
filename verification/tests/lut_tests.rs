use mengxi::color_space::ACESColorSpace;
use mengxi::lut::{
    check_diff_shapes, check_export_format, check_lut_shape, check_overwrite, export_result,
    fingerprint_query, plan_export, resolve_color_space, ExportLutConfig, FingerprintLookup,
    LutFormat, LutGenerationError, LutIoError,
};

fn config(path: &str, format: &str) -> ExportLutConfig {
    ExportLutConfig::new(1, path.to_string(), format.to_string())
}

#[test]
fn formats_are_named_by_extension() {
    assert_eq!(LutFormat::from_extension("CUBE").unwrap(), LutFormat::Cube);
    assert_eq!(LutFormat::from_extension("3dl").unwrap(), LutFormat::ThreeDL);
    assert_eq!(LutFormat::from_extension("cdl").unwrap(), LutFormat::Cdl);
    assert_eq!(LutFormat::from_extension("xyz").unwrap_err().message(), "LUT format error: unknown LUT format: xyz");
}

#[test]
fn lut_shapes_are_checked() {
    assert!(check_lut_shape(2, 24).is_ok());
    assert_eq!(check_lut_shape(1, 3).unwrap_err().message(), "LUT format error: invalid grid size: 1");
    assert_eq!(check_lut_shape(2, 23).unwrap_err().message(), "LUT format error: expected 24 values, got 23");
}

#[test]
fn test_compare_luts_grid_mismatch() {
    assert_eq!(check_diff_shapes(2, 24, 2, 24).unwrap(), 8);
    assert_eq!(check_diff_shapes(17, 0, 33, 0).unwrap_err().message(), "LUT format error: grid sizes differ: 17 vs 33");
    assert!(check_diff_shapes(2, 24, 2, 21).is_err());
}

#[test]
fn new_config_defaults() {
    let c = config("/tmp/a.cube", "cube");
    assert_eq!(c.grid_size, 33);
    assert!(!c.force && !c.interactive);
    assert!(c.fingerprint_id.is_none());
    assert!(config("/tmp/a.cube", "cube").forced().force);
}

#[test]
fn test_export_lut_overwrite_denied() {
    let c = config("/tmp/a.cube", "cube");
    assert!(matches!(check_overwrite(&c, true), Err(LutGenerationError::OverwriteDenied(p)) if p == "/tmp/a.cube"));
    assert!(check_overwrite(&c, false).is_ok());
    assert!(check_overwrite(&c.clone().forced(), true).is_ok());
}

#[test]
fn test_export_lut_interactive_file_exists() {
    let mut c = config("/tmp/a.cube", "cube");
    c.interactive = true;
    assert!(matches!(check_overwrite(&c, true), Err(LutGenerationError::FileExists(_))));
}

#[test]
fn test_export_lut_cdl_rejected() {
    let c = config("/tmp/test.cdl", "cdl");
    match check_export_format(&c, Some("cdl")) {
        Err(LutGenerationError::FormatError(LutIoError::Format(m))) => {
            assert_eq!(m, "ASC-CDL is parametric and cannot be exported as a 3D LUT")
        }
        other => panic!("Expected FormatError for CDL, got: {:?}", other),
    }
}

#[test]
fn test_export_lut_path_extension_mismatch() {
    let c = config("/tmp/test.dat", "cube");
    match check_export_format(&c, Some("dat")) {
        Err(LutGenerationError::FormatError(LutIoError::Format(m))) => {
            assert_eq!(m, "output path extension '.dat' does not match specified format 'cube'")
        }
        other => panic!("Expected FormatError for extension mismatch, got: {:?}", other),
    }
    assert_eq!(check_export_format(&config("/tmp/x", "3DL"), None).unwrap(), LutFormat::ThreeDL);
}

#[test]
fn fingerprint_lookup_by_project_or_id() {
    let mut c = config("/tmp/a.cube", "cube");
    let (sql, arg) = fingerprint_query(&c);
    assert!(sql.contains("project_id = ?1"));
    assert_eq!(arg, 1);
    c.fingerprint_id = Some(9);
    let (sql, arg) = fingerprint_query(&c);
    assert!(sql.ends_with("WHERE id = ?1"));
    assert_eq!(arg, 9);
}

#[test]
fn test_export_lut_no_fingerprint() {
    let c = config("/tmp/a.cube", "cube");
    let (cs, title) = resolve_color_space(&c, FingerprintLookup::NotFound).unwrap();
    assert_eq!(cs, ACESColorSpace::ACEScg);
    assert!(title.is_none());
}

#[test]
fn test_export_lut_fingerprint_id_not_found() {
    let mut c = config("/tmp/a.cube", "cube");
    c.fingerprint_id = Some(99);
    assert!(matches!(resolve_color_space(&c, FingerprintLookup::NotFound), Err(LutGenerationError::FingerprintNotFound)));
}

#[test]
fn log_fingerprints_export_from_acescg() {
    let c = config("/tmp/a.cube", "cube");
    let (cs, title) = resolve_color_space(&c, FingerprintLookup::Found(Some("ACEScct".to_string()))).unwrap();
    assert_eq!(cs, ACESColorSpace::ACEScg);
    assert_eq!(title.as_deref(), Some("LUT: cube"));
    let (cs, _) = resolve_color_space(&c, FingerprintLookup::Found(Some("rec709".to_string()))).unwrap();
    assert_eq!(cs, ACESColorSpace::Rec709);
    assert!(matches!(
        resolve_color_space(&c, FingerprintLookup::Failed("locked".to_string())),
        Err(LutGenerationError::WriteError(m)) if m == "database error: locked"
    ));
}

#[test]
fn test_export_lut_with_fingerprint() {
    let c = config("/tmp/a.cube", "cube");
    let plan = plan_export(&c, false, FingerprintLookup::Found(Some("acescg".to_string())), Some("cube")).unwrap();
    assert_eq!(plan.source, ACESColorSpace::ACEScg);
    assert_eq!(plan.target, ACESColorSpace::Rec709);
    assert_eq!(plan.format, LutFormat::Cube);
    assert_eq!(plan.value_count, 33 * 33 * 33 * 3);
    assert_eq!(plan.title.as_deref(), Some("LUT: cube"));
    let r = export_result(&c);
    assert_eq!((r.path.as_str(), r.grid_size, r.format.as_str()), ("/tmp/a.cube", 33, "cube"));
}

#[test]
fn export_checks_apply_in_order() {
    let c = config("/tmp/a.cdl", "cdl");
    assert!(matches!(plan_export(&c, true, FingerprintLookup::NotFound, Some("cdl")), Err(LutGenerationError::OverwriteDenied(_))));
    assert!(matches!(plan_export(&c, false, FingerprintLookup::NotFound, Some("cdl")), Err(LutGenerationError::FormatError(_))));
    let mut big = config("/tmp/a.cube", "cube");
    big.grid_size = 300;
    assert!(matches!(plan_export(&big, false, FingerprintLookup::NotFound, Some("cube")), Err(LutGenerationError::FfiError(_))));
}
