//! Analyses of a fingerprint strip done by the colour engine (colour DNA, mood
//! timeline, complementary pairs, scatter, scene boundaries, colour distribution,
//! colour transfer): their categories, the checks of their inputs, the sizes of the
//! buffers they fill and how much of a filled buffer is read back.

use vstd::prelude::*;
use crate::text::{concat, decimal, push_decimal, push_signed_decimal, signed_decimal};

verus! {

broadcast use vstd::string::group_string_axioms;

/// "strip length L < width W * height H * 3 = E".
pub open spec fn short_strip_detailed(len: nat, w: nat, h: nat) -> Seq<char> {
    "strip length "@ + decimal(len) + " < width "@ + decimal(w) + " * height "@ + decimal(h)
        + " * 3 = "@ + decimal(w * h * 3)
}

/// "strip length L < expected E".
pub open spec fn short_strip_brief(len: nat, w: nat, h: nat) -> Seq<char> {
    "strip length "@ + decimal(len) + " < expected "@ + decimal(w * h * 3)
}

/// What is wrong with a strip of `len` values for a `w` by `h` analysis, if anything:
/// a zero dimension, or fewer values than the dimensions call for.
pub open spec fn strip_problem(len: nat, w: nat, h: nat, detailed: bool) -> Option<Seq<char>> {
    if w == 0 || h == 0 {
        Some("width and height must be non-zero"@)
    } else if len < w * h * 3 {
        Some(
            if detailed {
                short_strip_detailed(len, w, h)
            } else {
                short_strip_brief(len, w, h)
            },
        )
    } else {
        None
    }
}

/// A strip can be analysed exactly when neither dimension is zero and it holds at
/// least three values for every pixel of its frames.
pub proof fn lemma_strip_accepted(len: nat, w: nat, h: nat, detailed: bool)
    ensures
        strip_problem(len, w, h, detailed) is None <==> (w > 0 && h > 0 && len >= w * h * 3),
        (w == 0 || h == 0) ==> strip_problem(len, w, h, detailed) == Some("width and height must be non-zero"@),
{
}

/// The problem with a strip, as text, if any.
pub fn check_strip(len: usize, width: usize, height: usize, detailed: bool) -> (r: Option<String>)
    requires
        width * height * 3 <= usize::MAX,
    ensures
        opt_text(r) == strip_problem(len as nat, width as nat, height as nat, detailed),
{
    if width == 0 || height == 0 {
        return Some(String::from_str("width and height must be non-zero"));
    }
    let expected = width * height * 3;
    if len < expected {
        let mut m = String::from_str("strip length ");
        push_decimal(&mut m, len as u64);
        if detailed {
            m.append(" < width ");
            push_decimal(&mut m, width as u64);
            m.append(" * height ");
            push_decimal(&mut m, height as u64);
            m.append(" * 3 = ");
        } else {
            m.append(" < expected ");
        }
        push_decimal(&mut m, expected as u64);
        return Some(m);
    }
    None
}

/// View of an optional string.
pub open spec fn opt_text(o: Option<String>) -> Option<Seq<char>> {
    match o {
        Some(s) => Some(s@),
        None => None,
    }
}

/// "<function> returned <code>", the report of a failed engine call.
pub open spec fn engine_report(function: Seq<char>, code: int) -> Seq<char> {
    function + " returned "@ + signed_decimal(code)
}

fn engine_report_text(function: &str, code: i32) -> (r: String)
    ensures
        r@ == engine_report(function@, code as int),
{
    let mut m = concat(function, " returned ");
    push_signed_decimal(&mut m, code as i64);
    m
}

// ---------------------------------------------------------------------------
// Colour DNA
// ---------------------------------------------------------------------------

/// Errors of colour DNA extraction and comparison.
#[derive(Debug, Clone)]
pub enum ColorDnaError {
    FfiError(String),
    InvalidInput(String),
}

impl ColorDnaError {
    /// The text of the error.
    pub fn message(&self) -> (r: String)
        ensures
            *self matches ColorDnaError::FfiError(m) ==> r@ == "COLOR_DNA_FFI_ERROR -- "@ + m@,
            *self matches ColorDnaError::InvalidInput(m) ==> r@ == "COLOR_DNA_INVALID_INPUT -- "@ + m@,
    {
        match self {
            ColorDnaError::FfiError(m) => concat("COLOR_DNA_FFI_ERROR -- ", m.as_str()),
            ColorDnaError::InvalidInput(m) => concat("COLOR_DNA_INVALID_INPUT -- ", m.as_str()),
        }
    }
}

/// Number of values of a colour DNA signature.
pub const DNA_RAW_LEN: usize = 18;

/// Number of values of a colour DNA comparison.
pub const DNA_COMPARISON_RAW_LEN: usize = 4;

/// Check the input of colour DNA extraction.
pub fn check_dna_input(len: usize, width: usize, height: usize) -> (r: Result<(), ColorDnaError>)
    requires
        width * height * 3 <= usize::MAX,
    ensures
        strip_problem(len as nat, width as nat, height as nat, true) is None ==> r is Ok,
        strip_problem(len as nat, width as nat, height as nat, true) matches Some(m) ==> (r matches Err(
            ColorDnaError::InvalidInput(s)) && s@ == m),
{
    match check_strip(len, width, height, true) {
        Some(m) => Err(ColorDnaError::InvalidInput(m)),
        None => Ok(()),
    }
}

/// Check the number of values read back for a signature (`expected` values).
pub fn check_dna_raw_len(len: usize, expected: usize) -> (r: Result<(), ColorDnaError>)
    ensures
        len == expected ==> r is Ok,
        len != expected ==> (r matches Err(ColorDnaError::InvalidInput(m)) && m@ == "expected "@
            + decimal(expected as nat) + " elements, got "@ + decimal(len as nat)),
{
    if len != expected {
        let mut m = String::from_str("expected ");
        push_decimal(&mut m, expected as u64);
        m.append(" elements, got ");
        push_decimal(&mut m, len as u64);
        return Err(ColorDnaError::InvalidInput(m));
    }
    Ok(())
}

// ---------------------------------------------------------------------------
// Colour mood
// ---------------------------------------------------------------------------

/// Errors of the colour mood timeline.
#[derive(Debug, Clone)]
pub enum ColorMoodError {
    FfiError(String),
    InvalidInput(String),
}

impl ColorMoodError {
    /// The text of the error.
    pub fn message(&self) -> (r: String)
        ensures
            *self matches ColorMoodError::FfiError(m) ==> r@ == "COLOR_MOOD_FFI_ERROR -- "@ + m@,
            *self matches ColorMoodError::InvalidInput(m) ==> r@ == "COLOR_MOOD_INVALID_INPUT -- "@ + m@,
    {
        match self {
            ColorMoodError::FfiError(m) => concat("COLOR_MOOD_FFI_ERROR -- ", m.as_str()),
            ColorMoodError::InvalidInput(m) => concat("COLOR_MOOD_INVALID_INPUT -- ", m.as_str()),
        }
    }
}

/// Mood of a strip segment.
#[derive(Debug, Clone, Copy, PartialEq, Eq, Structural)]
pub enum MoodCategory {
    Dark,
    Vivid,
    Warm,
    Cool,
    Neutral,
}

/// The mood with an engine tag.
pub open spec fn mood_of_tag(tag: i32) -> Option<MoodCategory> {
    if tag == 0 {
        Some(MoodCategory::Dark)
    } else if tag == 1 {
        Some(MoodCategory::Vivid)
    } else if tag == 2 {
        Some(MoodCategory::Warm)
    } else if tag == 3 {
        Some(MoodCategory::Cool)
    } else if tag == 4 {
        Some(MoodCategory::Neutral)
    } else {
        None
    }
}

impl MoodCategory {
    /// The mood with an engine tag (0 to 4), `None` for any other tag.
    pub fn from_tag(tag: i32) -> (r: Option<MoodCategory>)
        ensures
            r == mood_of_tag(tag),
            tag == 0 ==> r == Some(MoodCategory::Dark),
            tag == 1 ==> r == Some(MoodCategory::Vivid),
            tag == 2 ==> r == Some(MoodCategory::Warm),
            tag == 3 ==> r == Some(MoodCategory::Cool),
            tag == 4 ==> r == Some(MoodCategory::Neutral),
            !(0 <= tag <= 4) ==> r is None,
    {
        if tag == 0 {
            Some(MoodCategory::Dark)
        } else if tag == 1 {
            Some(MoodCategory::Vivid)
        } else if tag == 2 {
            Some(MoodCategory::Warm)
        } else if tag == 3 {
            Some(MoodCategory::Cool)
        } else if tag == 4 {
            Some(MoodCategory::Neutral)
        } else {
            None
        }
    }

    /// The engine tag of the mood.
    pub fn tag(&self) -> (r: i32)
        ensures
            mood_of_tag(r) == Some(*self),
            *self == MoodCategory::Dark ==> r == 0,
            *self == MoodCategory::Vivid ==> r == 1,
            *self == MoodCategory::Warm ==> r == 2,
            *self == MoodCategory::Cool ==> r == 3,
            *self == MoodCategory::Neutral ==> r == 4,
    {
        match self {
            MoodCategory::Dark => 0,
            MoodCategory::Vivid => 1,
            MoodCategory::Warm => 2,
            MoodCategory::Cool => 3,
            MoodCategory::Neutral => 4,
        }
    }

    /// Chinese description of the mood.
    pub fn description_zh(&self) -> (r: &'static str)
        ensures
            *self == MoodCategory::Dark ==> r@ == "\u{6697}\u{8c03}"@,
            *self == MoodCategory::Vivid ==> r@ == "\u{9c9c}\u{8273}"@,
            *self == MoodCategory::Warm ==> r@ == "\u{6696}\u{8c03}"@,
            *self == MoodCategory::Cool ==> r@ == "\u{51b7}\u{8c03}"@,
            *self == MoodCategory::Neutral ==> r@ == "\u{4e2d}\u{6027}"@,
    {
        match self {
            MoodCategory::Dark => "\u{6697}\u{8c03}",
            MoodCategory::Vivid => "\u{9c9c}\u{8273}",
            MoodCategory::Warm => "\u{6696}\u{8c03}",
            MoodCategory::Cool => "\u{51b7}\u{8c03}",
            MoodCategory::Neutral => "\u{4e2d}\u{6027}",
        }
    }

    /// English description of the mood.
    pub fn description_en(&self) -> (r: &'static str)
        ensures
            *self == MoodCategory::Dark ==> r@ == "Dark"@,
            *self == MoodCategory::Vivid ==> r@ == "Vivid"@,
            *self == MoodCategory::Warm ==> r@ == "Warm"@,
            *self == MoodCategory::Cool ==> r@ == "Cool"@,
            *self == MoodCategory::Neutral ==> r@ == "Neutral"@,
    {
        match self {
            MoodCategory::Dark => "Dark",
            MoodCategory::Vivid => "Vivid",
            MoodCategory::Warm => "Warm",
            MoodCategory::Cool => "Cool",
            MoodCategory::Neutral => "Neutral",
        }
    }
}

/// Every mood's tag maps back to it: the tag numbering is a bijection on 0 to 4.
pub proof fn lemma_mood_tags_roundtrip(tag: i32)
    ensures
        mood_of_tag(tag) is Some <==> 0 <= tag <= 4,
{
}

/// Check the input of the mood timeline.
pub fn check_mood_input(len: usize, width: usize, height: usize) -> (r: Result<(), ColorMoodError>)
    requires
        width * height * 3 <= usize::MAX,
    ensures
        strip_problem(len as nat, width as nat, height as nat, false) is None ==> r is Ok,
        strip_problem(len as nat, width as nat, height as nat, false) matches Some(m) ==> (r matches Err(
            ColorMoodError::InvalidInput(s)) && s@ == m),
{
    match check_strip(len, width, height, false) {
        Some(m) => Err(ColorMoodError::InvalidInput(m)),
        None => Ok(()),
    }
}

/// Values per mood segment in the engine's output.
pub const SEGMENT_ELEMENTS: usize = 6;

/// Size of the mood output for `n` scene boundaries: a count and one record per
/// segment (one more segment than boundaries).
pub fn mood_output_len(boundaries: usize) -> (r: usize)
    requires
        (boundaries + 1) * 6 + 1 <= usize::MAX,
    ensures
        r == 1 + (boundaries + 1) * 6,
{
    1 + (boundaries + 1) * SEGMENT_ELEMENTS
}

/// Number of records of `per` values read back from an output of `out_len` values
/// announcing `count` records after its count value: records are read while they fit.
pub open spec fn records_read(count: nat, out_len: nat, per: nat) -> nat {
    if out_len < 1 {
        0
    } else if count <= (out_len - 1) as nat / per {
        count
    } else {
        (out_len - 1) as nat / per
    }
}

/// Number of records read back from an output buffer (after its count value).
pub fn records_to_read(count: usize, out_len: usize, per: usize) -> (r: usize)
    requires
        per > 0,
    ensures
        r == records_read(count as nat, out_len as nat, per as nat),
        r <= count,
{
    if out_len == 0 {
        return 0;
    }
    let cap = (out_len - 1) / per;
    if count <= cap {
        count
    } else {
        cap
    }
}

/// Every record read back lies inside the output buffer.
pub proof fn lemma_records_fit(count: nat, out_len: nat, per: nat)
    requires
        per > 0,
    ensures
        records_read(count, out_len, per) <= count,
        records_read(count, out_len, per) > 0 ==> 1 + records_read(count, out_len, per) * per <= out_len,
{
    let r = records_read(count, out_len, per);
    if r > 0 {
        let q = (out_len - 1) as nat / per;
        assert(q * per <= (out_len - 1) as nat) by (nonlinear_arith)
            requires per > 0, q == (out_len - 1) as nat / per;
        assert(r * per <= q * per) by (nonlinear_arith)
            requires r <= q, per > 0;
    }
}

// ---------------------------------------------------------------------------
// Complementary colour pairs
// ---------------------------------------------------------------------------

/// Errors of dominant pair detection.
#[derive(Debug, Clone)]
pub enum ColorPairsError {
    FfiError(String),
    InvalidInput(String),
}

impl ColorPairsError {
    /// The text of the error.
    pub fn message(&self) -> (r: String)
        ensures
            *self matches ColorPairsError::FfiError(m) ==> r@ == "COLOR_PAIRS_FFI_ERROR -- "@ + m@,
            *self matches ColorPairsError::InvalidInput(m) ==> r@ == "COLOR_PAIRS_INVALID_INPUT -- "@ + m@,
    {
        match self {
            ColorPairsError::FfiError(m) => concat("COLOR_PAIRS_FFI_ERROR -- ", m.as_str()),
            ColorPairsError::InvalidInput(m) => concat("COLOR_PAIRS_INVALID_INPUT -- ", m.as_str()),
        }
    }
}

/// Kind of a complementary pair.
#[derive(Debug, Clone, Copy, PartialEq, Eq, Structural)]
pub enum PairType {
    TealOrange,
    BlueYellow,
    RedCyan,
    MagentaGreen,
    Other,
}

/// The pair kind with an engine tag; unknown tags are `Other`.
pub open spec fn pair_of_tag(tag: i32) -> PairType {
    if tag == 0 {
        PairType::TealOrange
    } else if tag == 1 {
        PairType::BlueYellow
    } else if tag == 2 {
        PairType::RedCyan
    } else if tag == 3 {
        PairType::MagentaGreen
    } else {
        PairType::Other
    }
}

impl PairType {
    /// The pair kind with an engine tag; unknown tags are `Other`.
    pub fn from_tag(tag: i32) -> (r: PairType)
        ensures
            r == pair_of_tag(tag),
            tag == 0 ==> r == PairType::TealOrange,
            tag == 1 ==> r == PairType::BlueYellow,
            tag == 2 ==> r == PairType::RedCyan,
            tag == 3 ==> r == PairType::MagentaGreen,
            !(0 <= tag <= 3) ==> r == PairType::Other,
    {
        if tag == 0 {
            PairType::TealOrange
        } else if tag == 1 {
            PairType::BlueYellow
        } else if tag == 2 {
            PairType::RedCyan
        } else if tag == 3 {
            PairType::MagentaGreen
        } else {
            PairType::Other
        }
    }

    /// Human-readable name.
    pub fn name(&self) -> (r: &'static str)
        ensures
            *self == PairType::TealOrange ==> r@ == "teal-orange"@,
            *self == PairType::BlueYellow ==> r@ == "blue-yellow"@,
            *self == PairType::RedCyan ==> r@ == "red-cyan"@,
            *self == PairType::MagentaGreen ==> r@ == "magenta-green"@,
            *self == PairType::Other ==> r@ == "other"@,
    {
        match self {
            PairType::TealOrange => "teal-orange",
            PairType::BlueYellow => "blue-yellow",
            PairType::RedCyan => "red-cyan",
            PairType::MagentaGreen => "magenta-green",
            PairType::Other => "other",
        }
    }
}

/// Check the input of pair detection.
pub fn check_pairs_input(len: usize, width: usize, height: usize) -> (r: Result<(), ColorPairsError>)
    requires
        width * height * 3 <= usize::MAX,
    ensures
        strip_problem(len as nat, width as nat, height as nat, true) is None ==> r is Ok,
        strip_problem(len as nat, width as nat, height as nat, true) matches Some(m) ==> (r matches Err(
            ColorPairsError::InvalidInput(s)) && s@ == m),
{
    match check_strip(len, width, height, true) {
        Some(m) => Err(ColorPairsError::InvalidInput(m)),
        None => Ok(()),
    }
}

/// Most pairs the engine reports.
pub const MAX_PAIRS: usize = 6;

/// Values per pair in the engine's output.
pub const ELEMENTS_PER_PAIR: usize = 4;

/// Size of the pair detection output: a count and up to six records.
pub const PAIRS_RAW_OUT_LEN: usize = 25;

/// Check the pair count `count` announced by an output of `len` values: it must not
/// exceed the maximum, and the records must fit.
pub fn check_pair_count(len: usize, count: usize) -> (r: Result<(), ColorPairsError>)
    requires
        len >= 1,
    ensures
        count > 6 ==> (r matches Err(ColorPairsError::InvalidInput(m)) && m@ == "pair count "@
            + decimal(count as nat) + " exceeds max 6"@),
        count <= 6 && len < 1 + count * 4 ==> (r matches Err(ColorPairsError::InvalidInput(m)) && m@
            == "need "@ + decimal((1 + count * 4) as nat) + " elements for "@ + decimal(count as nat)
            + " pairs, got "@ + decimal(len as nat)),
        count <= 6 && len >= 1 + count * 4 ==> r is Ok,
{
    if count > MAX_PAIRS {
        let mut m = String::from_str("pair count ");
        push_decimal(&mut m, count as u64);
        m.append(" exceeds max 6");
        return Err(ColorPairsError::InvalidInput(m));
    }
    let needed = 1 + count * ELEMENTS_PER_PAIR;
    if len < needed {
        let mut m = String::from_str("need ");
        push_decimal(&mut m, needed as u64);
        m.append(" elements for ");
        push_decimal(&mut m, count as u64);
        m.append(" pairs, got ");
        push_decimal(&mut m, len as u64);
        return Err(ColorPairsError::InvalidInput(m));
    }
    Ok(())
}

/// The error for an empty pair output.
pub fn empty_pairs_output() -> (r: ColorPairsError)
    ensures
        r matches ColorPairsError::InvalidInput(m) && m@ == "empty output"@,
{
    ColorPairsError::InvalidInput(String::from_str("empty output"))
}

// ---------------------------------------------------------------------------
// Scatter
// ---------------------------------------------------------------------------

/// Errors of scatter extraction.
#[derive(Debug, Clone)]
pub enum ColorScatterError {
    FfiError(String),
    InvalidInput(String),
}

impl ColorScatterError {
    /// The text of the error.
    pub fn message(&self) -> (r: String)
        ensures
            *self matches ColorScatterError::FfiError(m) ==> r@ == "COLOR_SCATTER_FFI_ERROR -- "@ + m@,
            *self matches ColorScatterError::InvalidInput(m) ==> r@ == "COLOR_SCATTER_INVALID_INPUT -- "@ + m@,
    {
        match self {
            ColorScatterError::FfiError(m) => concat("COLOR_SCATTER_FFI_ERROR -- ", m.as_str()),
            ColorScatterError::InvalidInput(m) => concat("COLOR_SCATTER_INVALID_INPUT -- ", m.as_str()),
        }
    }
}

/// Check the input of per-frame scatter extraction.
pub fn check_scatter_input(len: usize, width: usize, height: usize) -> (r: Result<(), ColorScatterError>)
    requires
        width * height * 3 <= usize::MAX,
    ensures
        strip_problem(len as nat, width as nat, height as nat, true) is None ==> r is Ok,
        strip_problem(len as nat, width as nat, height as nat, true) matches Some(m) ==> (r matches Err(
            ColorScatterError::InvalidInput(s)) && s@ == m),
{
    match check_strip(len, width, height, true) {
        Some(m) => Err(ColorScatterError::InvalidInput(m)),
        None => Ok(()),
    }
}

/// Check the input of the scatter density grid.
pub fn check_density_input(len: usize, width: usize, height: usize, grid_size: usize) -> (r: Result<(), ColorScatterError>)
    requires
        width * height * 3 <= usize::MAX,
    ensures
        (width == 0 || height == 0 || grid_size == 0) ==> (r matches Err(ColorScatterError::InvalidInput(m))
            && m@ == "width, height, and grid_size must be non-zero"@),
        width > 0 && height > 0 && grid_size > 0 ==> (match strip_problem(len as nat, width as nat, height as nat, true) {
            Some(m) => (r matches Err(ColorScatterError::InvalidInput(s)) && s@ == m),
            None => r is Ok,
        }),
{
    if width == 0 || height == 0 || grid_size == 0 {
        return Err(ColorScatterError::InvalidInput(String::from_str("width, height, and grid_size must be non-zero")));
    }
    check_scatter_input(len, width, height)
}

/// Check the scatter values read back: three per frame.
pub fn check_scatter_raw(len: usize, width: usize) -> (r: Result<(), ColorScatterError>)
    requires
        width * 3 <= usize::MAX,
    ensures
        len >= width * 3 ==> r is Ok,
        len < width * 3 ==> (r matches Err(ColorScatterError::InvalidInput(m)) && m@ == "expected "@
            + decimal((width * 3) as nat) + " elements for "@ + decimal(width as nat) + " frames, got "@
            + decimal(len as nat)),
{
    let expected = width * 3;
    if len < expected {
        let mut m = String::from_str("expected ");
        push_decimal(&mut m, expected as u64);
        m.append(" elements for ");
        push_decimal(&mut m, width as u64);
        m.append(" frames, got ");
        push_decimal(&mut m, len as u64);
        return Err(ColorScatterError::InvalidInput(m));
    }
    Ok(())
}

// ---------------------------------------------------------------------------
// Scene boundaries
// ---------------------------------------------------------------------------

/// Errors of scene boundary detection.
#[derive(Debug, Clone)]
pub enum SceneBoundaryError {
    FfiError(String),
    InvalidInput(String),
}

impl SceneBoundaryError {
    /// The text of the error.
    pub fn message(&self) -> (r: String)
        ensures
            *self matches SceneBoundaryError::FfiError(m) ==> r@ == "SCENE_BOUNDARY_FFI_ERROR -- "@ + m@,
            *self matches SceneBoundaryError::InvalidInput(m) ==> r@ == "SCENE_BOUNDARY_INVALID_INPUT -- "@ + m@,
    {
        match self {
            SceneBoundaryError::FfiError(m) => concat("SCENE_BOUNDARY_FFI_ERROR -- ", m.as_str()),
            SceneBoundaryError::InvalidInput(m) => concat("SCENE_BOUNDARY_INVALID_INPUT -- ", m.as_str()),
        }
    }
}

/// Largest number of boundaries that may be asked for.
pub const MAX_BOUNDARIES: usize = 1024;

/// Values per boundary in the engine's output.
pub const BOUNDARY_ELEMENTS: usize = 8;

/// The number of boundaries to ask for: the request, or 50 when it is 0.
pub open spec fn boundary_limit(max_boundaries: usize) -> usize {
    if max_boundaries == 0 {
        50
    } else {
        max_boundaries
    }
}

/// Check a scene boundary request and give the size of the output buffer: a count
/// and one record per boundary asked for.
pub fn plan_scene_boundaries(len: usize, width: usize, height: usize, max_boundaries: usize) -> (r: Result<usize, SceneBoundaryError>)
    requires
        width * height * 3 <= usize::MAX,
    ensures
        strip_problem(len as nat, width as nat, height as nat, false) matches Some(m) ==> (r matches Err(
            SceneBoundaryError::InvalidInput(s)) && s@ == m),
        strip_problem(len as nat, width as nat, height as nat, false) is None && boundary_limit(max_boundaries) > 1024
            ==> (r matches Err(SceneBoundaryError::InvalidInput(s)) && s@ == "max_boundaries "@
            + decimal(boundary_limit(max_boundaries) as nat) + " exceeds limit 1024"@),
        strip_problem(len as nat, width as nat, height as nat, false) is None && boundary_limit(max_boundaries) <= 1024
            ==> r == Ok::<usize, SceneBoundaryError>((1 + boundary_limit(max_boundaries) * 8) as usize),
{
    match check_strip(len, width, height, false) {
        Some(m) => {
            return Err(SceneBoundaryError::InvalidInput(m));
        },
        None => {},
    }
    let max_b = if max_boundaries == 0 {
        50
    } else {
        max_boundaries
    };
    if max_b > MAX_BOUNDARIES {
        let mut m = String::from_str("max_boundaries ");
        push_decimal(&mut m, max_b as u64);
        m.append(" exceeds limit 1024");
        return Err(SceneBoundaryError::InvalidInput(m));
    }
    Ok(1 + max_b * BOUNDARY_ELEMENTS)
}

// ---------------------------------------------------------------------------
// Colour distribution
// ---------------------------------------------------------------------------

/// The seven hue categories of the colour distribution.
#[derive(Debug, Clone, Copy, PartialEq, Eq, Structural)]
pub enum ColorCategory {
    Red,
    Skin,
    Yellow,
    Green,
    Cyan,
    Blue,
    Magenta,
}

/// Number of hue categories.
pub const NUM_CATEGORIES: usize = 7;

/// Position of a category in the distribution.
pub open spec fn category_index(c: ColorCategory) -> usize {
    match c {
        ColorCategory::Red => 0,
        ColorCategory::Skin => 1,
        ColorCategory::Yellow => 2,
        ColorCategory::Green => 3,
        ColorCategory::Cyan => 4,
        ColorCategory::Blue => 5,
        ColorCategory::Magenta => 6,
    }
}

impl ColorCategory {
    /// Position of the category in the distribution (0 to 6).
    pub fn index(self) -> (r: usize)
        ensures
            r == category_index(self),
            r < NUM_CATEGORIES,
            self == ColorCategory::Red ==> r == 0,
            self == ColorCategory::Skin ==> r == 1,
            self == ColorCategory::Yellow ==> r == 2,
            self == ColorCategory::Green ==> r == 3,
            self == ColorCategory::Cyan ==> r == 4,
            self == ColorCategory::Blue ==> r == 5,
            self == ColorCategory::Magenta ==> r == 6,
    {
        match self {
            ColorCategory::Red => 0,
            ColorCategory::Skin => 1,
            ColorCategory::Yellow => 2,
            ColorCategory::Green => 3,
            ColorCategory::Cyan => 4,
            ColorCategory::Blue => 5,
            ColorCategory::Magenta => 6,
        }
    }

    /// Upper-case name of the category.
    pub fn name(self) -> (r: &'static str)
        ensures
            self == ColorCategory::Red ==> r@ == "RED"@,
            self == ColorCategory::Skin ==> r@ == "SKIN"@,
            self == ColorCategory::Yellow ==> r@ == "YELLOW"@,
            self == ColorCategory::Green ==> r@ == "GREEN"@,
            self == ColorCategory::Cyan ==> r@ == "CYAN"@,
            self == ColorCategory::Blue ==> r@ == "BLUE"@,
            self == ColorCategory::Magenta ==> r@ == "MAGENTA"@,
    {
        match self {
            ColorCategory::Red => "RED",
            ColorCategory::Skin => "SKIN",
            ColorCategory::Yellow => "YELLOW",
            ColorCategory::Green => "GREEN",
            ColorCategory::Cyan => "CYAN",
            ColorCategory::Blue => "BLUE",
            ColorCategory::Magenta => "MAGENTA",
        }
    }

    /// The colour used to show the category.
    pub fn display_rgb(self) -> (r: (u8, u8, u8))
        ensures
            self == ColorCategory::Red ==> r == (220u8, 50u8, 50u8),
            self == ColorCategory::Skin ==> r == (230u8, 170u8, 130u8),
            self == ColorCategory::Yellow ==> r == (230u8, 210u8, 50u8),
            self == ColorCategory::Green ==> r == (50u8, 200u8, 70u8),
            self == ColorCategory::Cyan ==> r == (50u8, 200u8, 210u8),
            self == ColorCategory::Blue ==> r == (50u8, 80u8, 220u8),
            self == ColorCategory::Magenta ==> r == (200u8, 50u8, 200u8),
    {
        match self {
            ColorCategory::Red => (220, 50, 50),
            ColorCategory::Skin => (230, 170, 130),
            ColorCategory::Yellow => (230, 210, 50),
            ColorCategory::Green => (50, 200, 70),
            ColorCategory::Cyan => (50, 200, 210),
            ColorCategory::Blue => (50, 80, 220),
            ColorCategory::Magenta => (200, 50, 200),
        }
    }

    /// All categories, in distribution order.
    pub fn all() -> (r: [ColorCategory; 7])
        ensures
            forall|i: int| 0 <= i < 7 ==> category_index(#[trigger] r@[i]) == i,
            r@ == seq![ColorCategory::Red, ColorCategory::Skin, ColorCategory::Yellow, ColorCategory::Green,
                ColorCategory::Cyan, ColorCategory::Blue, ColorCategory::Magenta],
    {
        [
            ColorCategory::Red,
            ColorCategory::Skin,
            ColorCategory::Yellow,
            ColorCategory::Green,
            ColorCategory::Cyan,
            ColorCategory::Blue,
            ColorCategory::Magenta,
        ]
    }
}

/// Whether a strip of `len` values can be classified as `width` by `height` frames:
/// no zero dimension and enough values. Otherwise the distribution is empty.
pub fn distribution_applies(len: usize, width: usize, height: usize) -> (r: bool)
    requires
        width * height * 3 <= usize::MAX,
    ensures
        r == (width > 0 && height > 0 && len >= width * height * 3),
{
    !(width == 0 || height == 0 || len < width * height * 3)
}

// ---------------------------------------------------------------------------
// Colour transfer
// ---------------------------------------------------------------------------

/// Errors of colour transfer LUT generation.
#[derive(Debug, Clone)]
pub enum ColorTransferError {
    FfiError(String),
    InvalidInput(String),
    IoError(String),
}

impl ColorTransferError {
    /// The text of the error.
    pub fn message(&self) -> (r: String)
        ensures
            *self matches ColorTransferError::FfiError(m) ==> r@ == "COLOR_TRANSFER_FFI_ERROR -- "@ + m@,
            *self matches ColorTransferError::InvalidInput(m) ==> r@ == "COLOR_TRANSFER_INVALID_INPUT -- "@ + m@,
            *self matches ColorTransferError::IoError(m) ==> r@ == "COLOR_TRANSFER_IO_ERROR -- "@ + m@,
    {
        match self {
            ColorTransferError::FfiError(m) => concat("COLOR_TRANSFER_FFI_ERROR -- ", m.as_str()),
            ColorTransferError::InvalidInput(m) => concat("COLOR_TRANSFER_INVALID_INPUT -- ", m.as_str()),
            ColorTransferError::IoError(m) => concat("COLOR_TRANSFER_IO_ERROR -- ", m.as_str()),
        }
    }
}

/// Largest transfer LUT grid.
pub const MAX_GRID_SIZE: usize = 129;

/// The grid of a transfer LUT: the request, or 33 when it is 0.
pub open spec fn transfer_grid(grid_size: usize) -> usize {
    if grid_size == 0 {
        33
    } else {
        grid_size
    }
}

/// Check a transfer LUT request and give its grid size and number of values.
pub fn plan_transfer_lut(src_w: usize, src_h: usize, tgt_w: usize, tgt_h: usize, grid_size: usize) -> (r: Result<(usize, usize), ColorTransferError>)
    ensures
        !(2 <= transfer_grid(grid_size) <= 129) ==> (r matches Err(ColorTransferError::InvalidInput(m))
            && m@ == "grid_size "@ + decimal(transfer_grid(grid_size) as nat) + " out of range [2, 129]"@),
        2 <= transfer_grid(grid_size) <= 129 && (src_w == 0 || src_h == 0 || tgt_w == 0 || tgt_h == 0)
            ==> (r matches Err(ColorTransferError::InvalidInput(m)) && m@ == "dimensions must be non-zero"@),
        2 <= transfer_grid(grid_size) <= 129 && src_w > 0 && src_h > 0 && tgt_w > 0 && tgt_h > 0 ==> (r matches Ok(
            (g, n)) && g == transfer_grid(grid_size) && n == g * g * g * 3),
{
    let gs = if grid_size == 0 {
        33
    } else {
        grid_size
    };
    if gs < 2 || gs > MAX_GRID_SIZE {
        let mut m = String::from_str("grid_size ");
        push_decimal(&mut m, gs as u64);
        m.append(" out of range [2, 129]");
        return Err(ColorTransferError::InvalidInput(m));
    }
    if src_w == 0 || src_h == 0 || tgt_w == 0 || tgt_h == 0 {
        return Err(ColorTransferError::InvalidInput(String::from_str("dimensions must be non-zero")));
    }
    assert(gs * gs <= 16641) by (nonlinear_arith)
        requires gs <= 129;
    assert(gs * gs * gs <= 2146689) by (nonlinear_arith)
        requires gs <= 129, gs * gs <= 16641;
    Ok((gs, gs * gs * gs * 3))
}

// ---------------------------------------------------------------------------
// Engine failures
// ---------------------------------------------------------------------------

/// The report of a failed engine call, "<function> returned <code>".
pub fn engine_call_failure(function: &str, code: i32) -> (r: String)
    ensures
        r@ == engine_report(function@, code as int),
{
    engine_report_text(function, code)
}

} // verus!
