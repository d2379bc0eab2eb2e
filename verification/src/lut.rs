//! LUT formats, LUT shape checks and the decisions of a LUT export: whether an
//! existing file may be replaced, which colour space the LUT starts from, which
//! format is written, and how large the LUT is.

use vstd::prelude::*;
use crate::color_science::{lut_value_count, lut_values};
use crate::color_space::{
    aces_from_lower, color_science_error_text, ACESColorSpace, ColorScienceError,
};
use crate::text::{all_ascii, ascii_lowercase, concat, decimal, push_decimal, str_eq, to_lowercase, unicode_lowercase};

verus! {

broadcast use vstd::string::group_string_axioms;

/// Errors of LUT reading, writing and checking.
#[derive(Debug, Clone)]
pub enum LutIoError {
    Parse(String),
    Serialize(String),
    Format(String),
    Io(String),
}

/// The text of a LUT I/O error.
pub open spec fn lut_io_error_text(e: LutIoError) -> Seq<char> {
    match e {
        LutIoError::Parse(m) => "LUT parse error: "@ + m@,
        LutIoError::Serialize(m) => "LUT serialize error: "@ + m@,
        LutIoError::Format(m) => "LUT format error: "@ + m@,
        LutIoError::Io(m) => "IO error: "@ + m@,
    }
}

impl LutIoError {
    /// The text of the error.
    pub fn message(&self) -> (r: String)
        ensures
            r@ == lut_io_error_text(*self),
    {
        match self {
            LutIoError::Parse(m) => concat("LUT parse error: ", m.as_str()),
            LutIoError::Serialize(m) => concat("LUT serialize error: ", m.as_str()),
            LutIoError::Format(m) => concat("LUT format error: ", m.as_str()),
            LutIoError::Io(m) => concat("IO error: ", m.as_str()),
        }
    }
}

/// LUT file formats.
#[derive(Debug, Clone, Copy, PartialEq, Eq, Structural)]
pub enum LutFormat {
    Cube,
    ThreeDL,
    Look,
    Csp,
    Cdl,
}

/// The format named by a lower-cased extension.
pub open spec fn lut_format_of(lower: Seq<char>) -> Option<LutFormat> {
    if lower == "cube"@ {
        Some(LutFormat::Cube)
    } else if lower == "3dl"@ {
        Some(LutFormat::ThreeDL)
    } else if lower == "look"@ {
        Some(LutFormat::Look)
    } else if lower == "csp"@ {
        Some(LutFormat::Csp)
    } else if lower == "cdl"@ {
        Some(LutFormat::Cdl)
    } else {
        None
    }
}

/// Each of the five LUT extensions names its own format, and no other name is a
/// LUT format.
pub proof fn lemma_lut_formats(lower: Seq<char>)
    ensures
        lower == "cube"@ ==> lut_format_of(lower) == Some(LutFormat::Cube),
        lower == "3dl"@ ==> lut_format_of(lower) == Some(LutFormat::ThreeDL),
        lower == "look"@ ==> lut_format_of(lower) == Some(LutFormat::Look),
        lower == "csp"@ ==> lut_format_of(lower) == Some(LutFormat::Csp),
        lower == "cdl"@ ==> lut_format_of(lower) == Some(LutFormat::Cdl),
        lut_format_of(lower) is Some <==> (lower == "cube"@ || lower == "3dl"@ || lower == "look"@ || lower
            == "csp"@ || lower == "cdl"@),
{
    reveal_strlit("cube");
    reveal_strlit("3dl");
    reveal_strlit("look");
    reveal_strlit("csp");
    reveal_strlit("cdl");
    assert("cube"@.len() == 4 && "look"@.len() == 4 && "3dl"@.len() == 3 && "csp"@.len() == 3 && "cdl"@.len() == 3);
    assert("cube"@[0] != "look"@[0]);
    assert("3dl"@[0] != "csp"@[0] && "3dl"@[0] != "cdl"@[0] && "csp"@[1] != "cdl"@[1]);
}

impl LutFormat {
    /// The format named by a file extension, in any case.
    pub fn from_extension(ext: &str) -> (r: Result<LutFormat, LutIoError>)
        ensures
            match lut_format_of(unicode_lowercase(ext@)) {
                Some(f) => r == Ok::<LutFormat, LutIoError>(f),
                None => (r matches Err(LutIoError::Format(m)) && m@ == "unknown LUT format: "@
                    + unicode_lowercase(ext@)),
            },
            unicode_lowercase(ext@) == "cube"@ ==> r == Ok::<LutFormat, LutIoError>(LutFormat::Cube),
            unicode_lowercase(ext@) == "3dl"@ ==> r == Ok::<LutFormat, LutIoError>(LutFormat::ThreeDL),
            unicode_lowercase(ext@) == "look"@ ==> r == Ok::<LutFormat, LutIoError>(LutFormat::Look),
            unicode_lowercase(ext@) == "csp"@ ==> r == Ok::<LutFormat, LutIoError>(LutFormat::Csp),
            unicode_lowercase(ext@) == "cdl"@ ==> r == Ok::<LutFormat, LutIoError>(LutFormat::Cdl),
            all_ascii(ext@) && ascii_lowercase(ext@) == "cube"@ ==> r == Ok::<LutFormat, LutIoError>(LutFormat::Cube),
            all_ascii(ext@) && ascii_lowercase(ext@) == "3dl"@ ==> r == Ok::<LutFormat, LutIoError>(LutFormat::ThreeDL),
            all_ascii(ext@) && ascii_lowercase(ext@) == "look"@ ==> r == Ok::<LutFormat, LutIoError>(LutFormat::Look),
            all_ascii(ext@) && ascii_lowercase(ext@) == "csp"@ ==> r == Ok::<LutFormat, LutIoError>(LutFormat::Csp),
            all_ascii(ext@) && ascii_lowercase(ext@) == "cdl"@ ==> r == Ok::<LutFormat, LutIoError>(LutFormat::Cdl),
            r is Ok <==> (unicode_lowercase(ext@) == "cube"@ || unicode_lowercase(ext@) == "3dl"@
                || unicode_lowercase(ext@) == "look"@ || unicode_lowercase(ext@) == "csp"@ || unicode_lowercase(ext@)
                == "cdl"@),
    {
        proof {
            lemma_lut_formats(unicode_lowercase(ext@));
        }
        let lower = to_lowercase(ext);
        let l = lower.as_str();
        if str_eq(l, "cube") {
            Ok(LutFormat::Cube)
        } else if str_eq(l, "3dl") {
            Ok(LutFormat::ThreeDL)
        } else if str_eq(l, "look") {
            Ok(LutFormat::Look)
        } else if str_eq(l, "csp") {
            Ok(LutFormat::Csp)
        } else if str_eq(l, "cdl") {
            Ok(LutFormat::Cdl)
        } else {
            Err(LutIoError::Format(concat("unknown LUT format: ", l)))
        }
    }
}

/// The problem with a LUT of `g` samples per axis holding `n` values, if any.
pub open spec fn lut_shape_problem(g: u32, n: nat) -> Option<Seq<char>> {
    if g < 2 || g > 256 {
        Some("invalid grid size: "@ + decimal(g as nat))
    } else if n != lut_values(g as nat) {
        Some("expected "@ + decimal(lut_values(g as nat)) + " values, got "@ + decimal(n))
    } else {
        None
    }
}

/// A LUT shape is accepted exactly when it has 2 to 256 samples per axis and three
/// values for each of its `g * g * g` grid points; two LUTs can be compared exactly
/// when both have such a shape on the same grid.
pub proof fn lemma_lut_shapes(g: u32, n: nat, gb: u32, nb: nat)
    ensures
        lut_shape_problem(g, n) is None <==> (2 <= g <= 256 && n == g * g * g * 3),
        diff_problem(g, n, gb, nb) is None <==> (g == gb && n == g * g * g * 3 && nb == g * g * g * 3),
{
}

/// Check the shape of a LUT: 2 to 256 samples per axis and three values per grid
/// point.
pub fn check_lut_shape(grid_size: u32, value_count: usize) -> (r: Result<(), LutIoError>)
    ensures
        lut_shape_problem(grid_size, value_count as nat) is None ==> r is Ok,
        lut_shape_problem(grid_size, value_count as nat) matches Some(m) ==> (r matches Err(
            LutIoError::Format(s)) && s@ == m),
{
    if grid_size < 2 || grid_size > 256 {
        let mut s = String::from_str("invalid grid size: ");
        push_decimal(&mut s, grid_size as u64);
        return Err(LutIoError::Format(s));
    }
    let g = grid_size as usize;
    assert(g * g <= 65536) by (nonlinear_arith)
        requires g <= 256;
    assert(g * g * g <= 16777216) by (nonlinear_arith)
        requires g <= 256, g * g <= 65536;
    let expected = g * g * g * 3;
    if value_count != expected {
        let mut s = String::from_str("expected ");
        push_decimal(&mut s, expected as u64);
        s.append(" values, got ");
        push_decimal(&mut s, value_count as u64);
        return Err(LutIoError::Format(s));
    }
    Ok(())
}

/// The problem with comparing a LUT of `ga` samples per axis and `na` values with one
/// of `gb` and `nb`, if any.
pub open spec fn diff_problem(ga: u32, na: nat, gb: u32, nb: nat) -> Option<Seq<char>> {
    if ga != gb {
        Some("grid sizes differ: "@ + decimal(ga as nat) + " vs "@ + decimal(gb as nat))
    } else if na != lut_values(ga as nat) {
        Some("expected "@ + decimal(lut_values(ga as nat)) + " values, got "@ + decimal(na))
    } else if nb != lut_values(ga as nat) {
        Some("expected "@ + decimal(lut_values(ga as nat)) + " values, got "@ + decimal(nb))
    } else {
        None
    }
}

/// Check that two LUTs can be compared point by point: same grid, three values per
/// grid point. Gives the number of grid points.
pub fn check_diff_shapes(grid_a: u32, len_a: usize, grid_b: u32, len_b: usize) -> (r: Result<
    usize,
    LutIoError,
>)
    requires
        grid_a == grid_b ==> lut_values(grid_a as nat) <= usize::MAX,
    ensures
        diff_problem(grid_a, len_a as nat, grid_b, len_b as nat) is None ==> r
            == Ok::<usize, LutIoError>((grid_a * grid_a * grid_a) as usize),
        diff_problem(grid_a, len_a as nat, grid_b, len_b as nat) matches Some(m) ==> (r matches Err(
            LutIoError::Format(s)) && s@ == m),
{
    if grid_a != grid_b {
        let mut s = String::from_str("grid sizes differ: ");
        push_decimal(&mut s, grid_a as u64);
        s.append(" vs ");
        push_decimal(&mut s, grid_b as u64);
        return Err(LutIoError::Format(s));
    }
    let g = grid_a as usize;
    assert(g * g * g * 3 <= usize::MAX);
    assert(g * g <= g * g * g * 3) by (nonlinear_arith)
        requires g >= 0;
    assert(g * g * g <= g * g * g * 3) by (nonlinear_arith)
        requires g >= 0;
    let points = g * g * g;
    let expected = points * 3;
    if len_a != expected {
        let mut s = String::from_str("expected ");
        push_decimal(&mut s, expected as u64);
        s.append(" values, got ");
        push_decimal(&mut s, len_a as u64);
        return Err(LutIoError::Format(s));
    }
    if len_b != expected {
        let mut s = String::from_str("expected ");
        push_decimal(&mut s, expected as u64);
        s.append(" values, got ");
        push_decimal(&mut s, len_b as u64);
        return Err(LutIoError::Format(s));
    }
    Ok(points)
}

/// Settings of a LUT export.
#[derive(Debug, Clone)]
pub struct ExportLutConfig {
    pub project_id: i64,
    pub fingerprint_id: Option<i64>,
    pub format: String,
    pub output_path: String,
    pub grid_size: u32,
    pub force: bool,
    pub interactive: bool,
}

impl ExportLutConfig {
    /// Settings for exporting a project's LUT: its first fingerprint, 33 samples per
    /// axis, no overwriting and no prompting.
    pub fn new(project_id: i64, output_path: String, format: String) -> (r: ExportLutConfig)
        ensures
            r.project_id == project_id,
            r.fingerprint_id is None,
            r.format == format,
            r.output_path == output_path,
            r.grid_size == 33,
            !r.force,
            !r.interactive,
    {
        ExportLutConfig {
            project_id,
            fingerprint_id: None,
            format,
            output_path,
            grid_size: 33,
            force: false,
            interactive: false,
        }
    }

    /// The same settings with overwriting allowed (after the user confirmed).
    pub fn forced(self) -> (r: ExportLutConfig)
        ensures
            r == (ExportLutConfig { force: true, ..self }),
    {
        ExportLutConfig { force: true, ..self }
    }
}

/// What a successful export wrote.
#[derive(Debug, Clone)]
pub struct LutExportResult {
    pub path: String,
    pub grid_size: u32,
    pub format: String,
}

/// Errors of LUT export.
#[derive(Debug, Clone)]
pub enum LutGenerationError {
    FingerprintNotFound,
    FfiError(ColorScienceError),
    FormatError(LutIoError),
    WriteError(String),
    OverwriteDenied(String),
    FileExists(String),
}

/// The text of an export error.
pub open spec fn lut_generation_error_text(e: LutGenerationError) -> Seq<char> {
    match e {
        LutGenerationError::FingerprintNotFound =>
            "EXPORT_FINGERPRINT_NOT_FOUND -- no fingerprint data found for this project"@,
        LutGenerationError::FfiError(c) => "EXPORT_FFI_ERROR -- "@ + color_science_error_text(c),
        LutGenerationError::FormatError(f) => "EXPORT_FORMAT_ERROR -- "@ + lut_io_error_text(f),
        LutGenerationError::WriteError(m) => "EXPORT_WRITE_ERROR -- "@ + m@,
        LutGenerationError::OverwriteDenied(p) => "EXPORT_FILE_EXISTS -- "@ + p@
            + " already exists. Use --force to overwrite."@,
        LutGenerationError::FileExists(p) => "EXPORT_FILE_EXISTS -- "@ + p@,
    }
}

impl LutGenerationError {
    /// The text of the error.
    pub fn message(&self) -> (r: String)
        ensures
            r@ == lut_generation_error_text(*self),
    {
        match self {
            LutGenerationError::FingerprintNotFound => String::from_str(
                "EXPORT_FINGERPRINT_NOT_FOUND -- no fingerprint data found for this project",
            ),
            LutGenerationError::FfiError(c) => {
                let t = c.message();
                concat("EXPORT_FFI_ERROR -- ", t.as_str())
            },
            LutGenerationError::FormatError(f) => {
                let t = f.message();
                concat("EXPORT_FORMAT_ERROR -- ", t.as_str())
            },
            LutGenerationError::WriteError(m) => concat("EXPORT_WRITE_ERROR -- ", m.as_str()),
            LutGenerationError::OverwriteDenied(p) => {
                let a = concat("EXPORT_FILE_EXISTS -- ", p.as_str());
                concat(a.as_str(), " already exists. Use --force to overwrite.")
            },
            LutGenerationError::FileExists(p) => concat("EXPORT_FILE_EXISTS -- ", p.as_str()),
        }
    }
}

/// What looking up the source fingerprint gave.
#[derive(Debug, Clone)]
pub enum FingerprintLookup {
    /// A fingerprint, with its ACES colour-space column (which may be empty).
    Found(Option<String>),
    /// No fingerprint.
    NotFound,
    /// The query failed; the reason.
    Failed(String),
}

/// The lookup of the source fingerprint: by id when the export names one, else the
/// first fingerprint of the project.
pub fn fingerprint_query(config: &ExportLutConfig) -> (r: (&'static str, i64))
    ensures
        config.fingerprint_id matches Some(id) ==> r.1 == id && r.0@
            == "SELECT aces_color_space, color_space_tag FROM fingerprints WHERE id = ?1"@,
        config.fingerprint_id is None ==> r.1 == config.project_id && r.0@
            == "SELECT aces_color_space, color_space_tag FROM fingerprints WHERE file_id IN (SELECT id FROM files WHERE project_id = ?1) LIMIT 1"@,
{
    match config.fingerprint_id {
        Some(id) => ("SELECT aces_color_space, color_space_tag FROM fingerprints WHERE id = ?1", id),
        None => (
            "SELECT aces_color_space, color_space_tag FROM fingerprints WHERE file_id IN (SELECT id FROM files WHERE project_id = ?1) LIMIT 1",
            config.project_id,
        ),
    }
}

/// The colour space named by an ACES column: its name in lower case, ACEScg when empty.
pub open spec fn aces_column_space(column: Option<String>) -> ACESColorSpace {
    match column {
        Some(s) => aces_from_lower(unicode_lowercase(s@)),
        None => ACESColorSpace::ACEScg,
    }
}

/// The source colour space and title for an export, or why there is none (`None`: no
/// fingerprint where one was named; `Some(m)`: the lookup failed with `m`).
pub open spec fn resolve_outcome(
    named: bool,
    format: Seq<char>,
    lookup: FingerprintLookup,
) -> Result<(ACESColorSpace, Option<Seq<char>>), Option<Seq<char>>> {
    match lookup {
        FingerprintLookup::Found(col) => Ok(
            (
                if aces_column_space(col) == ACESColorSpace::ACEScct {
                    ACESColorSpace::ACEScg
                } else {
                    aces_column_space(col)
                },
                Some("LUT: "@ + format),
            ),
        ),
        FingerprintLookup::NotFound => if named {
            Err(None)
        } else {
            Ok((ACESColorSpace::ACEScg, None))
        },
        FingerprintLookup::Failed(m) => Err(Some(m@)),
    }
}

/// The source colour space and LUT title for an export, from the fingerprint lookup:
/// the fingerprint's space (ACEScg in place of a log space) titled "LUT: <format>";
/// without a fingerprint, ACEScg and no title, unless the export named one.
pub fn resolve_color_space(config: &ExportLutConfig, lookup: FingerprintLookup) -> (r: Result<
    (ACESColorSpace, Option<String>),
    LutGenerationError,
>)
    ensures
        match resolve_outcome(config.fingerprint_id is Some, config.format@, lookup) {
            Ok((cs, t)) => (r matches Ok((rcs, rt)) && rcs == cs && opt_string_view(rt) == t),
            Err(None) => (r matches Err(LutGenerationError::FingerprintNotFound)),
            Err(Some(m)) => (r matches Err(LutGenerationError::WriteError(w)) && w@
                == "database error: "@ + m),
        },
{
    match lookup {
        FingerprintLookup::Found(col) => {
            let src = match &col {
                Some(s) => ACESColorSpace::from_aces_column(Some(s.as_str())),
                None => ACESColorSpace::from_aces_column(None),
            };
            let title = concat("LUT: ", config.format.as_str());
            if src.is_log() {
                Ok((ACESColorSpace::ACEScg, Some(title)))
            } else {
                Ok((src, Some(title)))
            }
        },
        FingerprintLookup::NotFound => {
            if config.fingerprint_id.is_some() {
                Err(LutGenerationError::FingerprintNotFound)
            } else {
                Ok((ACESColorSpace::ACEScg, None))
            }
        },
        FingerprintLookup::Failed(m) => Err(
            LutGenerationError::WriteError(concat("database error: ", m.as_str())),
        ),
    }
}

/// Whether an existing output file stops the export: it does unless overwriting is
/// allowed; in interactive mode the caller is to ask first.
pub fn check_overwrite(config: &ExportLutConfig, output_exists: bool) -> (r: Result<(), LutGenerationError>)
    ensures
        !output_exists || config.force ==> r is Ok,
        output_exists && !config.force && config.interactive ==> (r matches Err(
            LutGenerationError::FileExists(p)) && p@ == config.output_path@),
        output_exists && !config.force && !config.interactive ==> (r matches Err(
            LutGenerationError::OverwriteDenied(p)) && p@ == config.output_path@),
{
    if output_exists && !config.force {
        if config.interactive {
            Err(LutGenerationError::FileExists(config.output_path.clone()))
        } else {
            Err(LutGenerationError::OverwriteDenied(config.output_path.clone()))
        }
    } else {
        Ok(())
    }
}

/// The format an export writes, or why it cannot: the configured format must be a
/// known 3D LUT format and agree (in any case) with the output file's extension, when
/// it has one.
pub open spec fn export_format_outcome(format: Seq<char>, ext: Option<Seq<char>>) -> Result<LutFormat, Seq<char>> {
    match lut_format_of(unicode_lowercase(format)) {
        None => Err("unknown LUT format: "@ + unicode_lowercase(format)),
        Some(f) => if f == LutFormat::Cdl {
            Err("ASC-CDL is parametric and cannot be exported as a 3D LUT"@)
        } else {
            match ext {
                Some(e) => if unicode_lowercase(e) != unicode_lowercase(format) {
                    Err("output path extension '."@ + e + "' does not match specified format '"@
                        + format + "'"@)
                } else {
                    Ok(f)
                },
                None => Ok(f),
            }
        },
    }
}

/// An export may write any of the four 3D LUT formats, named in any case, when the
/// output path has no extension or one naming the same format; ASC-CDL is never
/// exported as a 3D LUT.
pub proof fn lemma_export_formats(format: Seq<char>, ext: Option<Seq<char>>)
    ensures
        (ext is None || (ext matches Some(e) && unicode_lowercase(e) == unicode_lowercase(format))) ==> {
            &&& unicode_lowercase(format) == "cube"@ ==> export_format_outcome(format, ext) == Ok::<LutFormat, Seq<char>>(LutFormat::Cube)
            &&& unicode_lowercase(format) == "3dl"@ ==> export_format_outcome(format, ext) == Ok::<LutFormat, Seq<char>>(LutFormat::ThreeDL)
            &&& unicode_lowercase(format) == "look"@ ==> export_format_outcome(format, ext) == Ok::<LutFormat, Seq<char>>(LutFormat::Look)
            &&& unicode_lowercase(format) == "csp"@ ==> export_format_outcome(format, ext) == Ok::<LutFormat, Seq<char>>(LutFormat::Csp)
        },
        unicode_lowercase(format) == "cdl"@ ==> export_format_outcome(format, ext) is Err,
        export_format_outcome(format, ext) matches Ok(f) ==> f != LutFormat::Cdl,
{
    lemma_lut_formats(unicode_lowercase(format));
}

/// View of an optional string slice.
pub open spec fn opt_str_view(o: Option<&str>) -> Option<Seq<char>> {
    match o {
        Some(s) => Some(s@),
        None => None,
    }
}

/// View of an optional string.
pub open spec fn opt_string_view(o: Option<String>) -> Option<Seq<char>> {
    match o {
        Some(s) => Some(s@),
        None => None,
    }
}

/// The format an export writes.
pub fn check_export_format(config: &ExportLutConfig, path_ext: Option<&str>) -> (r: Result<
    LutFormat,
    LutGenerationError,
>)
    ensures
        match export_format_outcome(config.format@, opt_str_view(path_ext)) {
            Ok(f) => r == Ok::<LutFormat, LutGenerationError>(f),
            Err(m) => (r matches Err(LutGenerationError::FormatError(LutIoError::Format(s))) && s@ == m),
        },
{
    let fmt = match LutFormat::from_extension(config.format.as_str()) {
        Ok(f) => f,
        Err(e) => {
            return Err(LutGenerationError::FormatError(e));
        },
    };
    if fmt == LutFormat::Cdl {
        return Err(
            LutGenerationError::FormatError(
                LutIoError::Format(String::from_str("ASC-CDL is parametric and cannot be exported as a 3D LUT")),
            ),
        );
    }
    match path_ext {
        Some(e) => {
            let le = to_lowercase(e);
            let lf = to_lowercase(config.format.as_str());
            if !str_eq(le.as_str(), lf.as_str()) {
                let a = concat("output path extension '.", e);
                let b = concat(a.as_str(), "' does not match specified format '");
                let c = concat(b.as_str(), config.format.as_str());
                return Err(LutGenerationError::FormatError(LutIoError::Format(concat(c.as_str(), "'"))));
            }
        },
        None => {},
    }
    Ok(fmt)
}

/// What an export is to produce, once its checks passed.
#[derive(Debug, Clone)]
pub struct ExportPlan {
    /// The colour space the LUT maps from.
    pub source: ACESColorSpace,
    /// The colour space the LUT maps to.
    pub target: ACESColorSpace,
    /// The LUT title.
    pub title: Option<String>,
    /// The file format.
    pub format: LutFormat,
    /// The number of values the LUT holds.
    pub value_count: usize,
}

/// The checks of an export, in the order they apply: an existing file, the source
/// fingerprint, the format, the LUT size. The LUT maps to Rec.709.
pub fn plan_export(
    config: &ExportLutConfig,
    output_exists: bool,
    lookup: FingerprintLookup,
    path_ext: Option<&str>,
) -> (r: Result<ExportPlan, LutGenerationError>)
    ensures
        output_exists && !config.force && config.interactive ==> (r matches Err(
            LutGenerationError::FileExists(p)) && p@ == config.output_path@),
        output_exists && !config.force && !config.interactive ==> (r matches Err(
            LutGenerationError::OverwriteDenied(p)) && p@ == config.output_path@),
        !output_exists || config.force ==> (match resolve_outcome(
            config.fingerprint_id is Some,
            config.format@,
            lookup,
        ) {
            Err(None) => (r matches Err(LutGenerationError::FingerprintNotFound)),
            Err(Some(m)) => (r matches Err(LutGenerationError::WriteError(w)) && w@
                == "database error: "@ + m),
            Ok((cs, t)) => match export_format_outcome(config.format@, opt_str_view(path_ext)) {
                Err(m) => (r matches Err(LutGenerationError::FormatError(LutIoError::Format(s)))
                    && s@ == m),
                Ok(f) => if config.grid_size < 2 || config.grid_size > 256 {
                    (r matches Err(LutGenerationError::FfiError(ColorScienceError::FfiError(c, _)))
                        && c == -1)
                } else {
                    (r matches Ok(p) && p.source == cs && opt_string_view(p.title) == t && p.format
                        == f && p.target == ACESColorSpace::Rec709 && p.value_count == lut_values(
                        config.grid_size as nat,
                    ))
                },
            },
        }),
{
    match check_overwrite(config, output_exists) {
        Ok(()) => {},
        Err(e) => {
            return Err(e);
        },
    }
    let (source, title) = match resolve_color_space(config, lookup) {
        Ok(st) => st,
        Err(e) => {
            return Err(e);
        },
    };
    let format = match check_export_format(config, path_ext) {
        Ok(f) => f,
        Err(e) => {
            return Err(e);
        },
    };
    let value_count = match lut_value_count(config.grid_size, source) {
        Ok(n) => n,
        Err(e) => {
            return Err(LutGenerationError::FfiError(e));
        },
    };
    Ok(ExportPlan { source, target: ACESColorSpace::Rec709, title, format, value_count })
}

/// What a successful export reports.
pub fn export_result(config: &ExportLutConfig) -> (r: LutExportResult)
    ensures
        r.path@ == config.output_path@,
        r.grid_size == config.grid_size,
        r.format@ == config.format@,
{
    LutExportResult {
        path: config.output_path.clone(),
        grid_size: config.grid_size,
        format: config.format.clone(),
    }
}

/// A dependency of a LUT file: the export that wrote it.
#[derive(Debug, Clone)]
pub struct LutDependency {
    pub project_name: String,
    pub file_path: String,
    pub format: String,
    pub grid_size: i64,
    pub exported_at: i64,
}

/// Errors of LUT dependency queries.
#[derive(Debug, Clone)]
pub enum LutDepError {
    MissingArg(String),
    DbError(String),
    QueryError(String),
}

impl LutDepError {
    /// The text of the error.
    pub fn message(&self) -> (r: String)
        ensures
            *self matches LutDepError::MissingArg(m) ==> r@ == "LUTDEP_MISSING_ARG -- "@ + m@,
            *self matches LutDepError::DbError(m) ==> r@ == "LUTDEP_DB_ERROR -- "@ + m@,
            *self matches LutDepError::QueryError(m) ==> r@ == "LUTDEP_DB_ERROR -- "@ + m@,
    {
        match self {
            LutDepError::MissingArg(m) => concat("LUTDEP_MISSING_ARG -- ", m.as_str()),
            LutDepError::DbError(m) => concat("LUTDEP_DB_ERROR -- ", m.as_str()),
            LutDepError::QueryError(m) => concat("LUTDEP_DB_ERROR -- ", m.as_str()),
        }
    }
}

/// Errors of LUT comparison.
#[derive(Debug, Clone)]
pub enum LutDiffError {
    /// A LUT file does not exist; its path.
    FileNotFound(String),
    /// A LUT file could not be parsed.
    ParseError(LutIoError),
    /// The LUTs have different grids.
    GridSizeMismatch { a: u32, b: u32 },
}

impl LutDiffError {
    /// The text of the error.
    pub fn message(&self) -> (r: String)
        ensures
            *self matches LutDiffError::FileNotFound(p) ==> r@ == "LUTDIFF_IO_ERROR -- file not found: "@ + p@,
            *self matches LutDiffError::ParseError(e) ==> r@ == "LUTDIFF_PARSE_ERROR -- "@ + lut_io_error_text(e),
            *self matches LutDiffError::GridSizeMismatch { a, b } ==> r@
                == "LUTDIFF_GRID_MISMATCH -- grid sizes differ: "@ + decimal(a as nat) + " vs "@ + decimal(b as nat),
    {
        match self {
            LutDiffError::FileNotFound(p) => concat("LUTDIFF_IO_ERROR -- file not found: ", p.as_str()),
            LutDiffError::ParseError(e) => {
                let t = e.message();
                concat("LUTDIFF_PARSE_ERROR -- ", t.as_str())
            },
            LutDiffError::GridSizeMismatch { a, b } => {
                let mut s = String::from_str("LUTDIFF_GRID_MISMATCH -- grid sizes differ: ");
                push_decimal(&mut s, *a as u64);
                s.append(" vs ");
                push_decimal(&mut s, *b as u64);
                s
            },
        }
    }
}

/// Check that two LUT files exist before they are compared; the first missing one
/// is reported.
pub fn check_lut_files(path_a: &str, a_exists: bool, path_b: &str, b_exists: bool) -> (r: Result<(), LutDiffError>)
    ensures
        !a_exists ==> (r matches Err(LutDiffError::FileNotFound(p)) && p@ == path_a@),
        a_exists && !b_exists ==> (r matches Err(LutDiffError::FileNotFound(p)) && p@ == path_b@),
        a_exists && b_exists ==> r is Ok,
{
    if !a_exists {
        return Err(LutDiffError::FileNotFound(String::from_str(path_a)));
    }
    if !b_exists {
        return Err(LutDiffError::FileNotFound(String::from_str(path_b)));
    }
    Ok(())
}

/// Check that two parsed LUTs can be compared point by point, as a comparison error:
/// different grids are a grid mismatch naming both sizes; a LUT whose values do not
/// fill its grid is a parse error. Gives the number of grid points.
pub fn diff_shapes(grid_a: u32, len_a: usize, grid_b: u32, len_b: usize) -> (r: Result<usize, LutDiffError>)
    requires
        grid_a == grid_b ==> lut_values(grid_a as nat) <= usize::MAX,
    ensures
        grid_a != grid_b ==> (r matches Err(LutDiffError::GridSizeMismatch { a, b }) && a == grid_a && b == grid_b),
        grid_a == grid_b ==> match diff_problem(grid_a, len_a as nat, grid_b, len_b as nat) {
            None => r == Ok::<usize, LutDiffError>((grid_a * grid_a * grid_a) as usize),
            Some(m) => (r matches Err(LutDiffError::ParseError(LutIoError::Format(s))) && s@ == m),
        },
{
    match check_diff_shapes(grid_a, len_a, grid_b, len_b) {
        Ok(points) => Ok(points),
        Err(e) => {
            if grid_a != grid_b {
                Err(LutDiffError::GridSizeMismatch { a: grid_a, b: grid_b })
            } else {
                Err(LutDiffError::ParseError(e))
            }
        },
    }
}

} // verus!
