//! Input checks of the colour-science engine: pixel buffers handed to it, LUT grid
//! requests, the Oklab conversion chosen for a colour-space tag, and the context
//! reported with an engine failure.

use vstd::prelude::*;
use crate::color_space::{ACESColorSpace, ColorScienceError};
use crate::text::{concat, decimal, push_decimal, push_signed_decimal, signed_decimal, str_eq};

verus! {

broadcast use vstd::string::group_string_axioms;

/// What a buffer handed to the engine holds.
#[derive(Debug, Clone, Copy, PartialEq, Eq, Structural)]
pub enum BufferKind {
    /// RGB pixels.
    Pixel,
    /// Oklab pixels.
    Oklab,
}

/// The word naming a buffer kind in messages.
pub open spec fn kind_word(k: BufferKind) -> Seq<char> {
    match k {
        BufferKind::Pixel => "pixel"@,
        BufferKind::Oklab => "oklab"@,
    }
}

/// The problem with a buffer of `len` values, if any: fewer than one pixel, more
/// values than the engine can address, or a length that is not a whole number of
/// pixels.
pub open spec fn buffer_problem(k: BufferKind, len: nat) -> Option<Seq<char>> {
    if len < 3 {
        Some(kind_word(k) + " data must contain at least 3 values (1 pixel)"@)
    } else if len > i32::MAX {
        Some(kind_word(k) + " data too large for FFI ("@ + decimal(len) + " elements, max 2147483647)"@)
    } else if len % 3 != 0 {
        Some(
            match k {
                BufferKind::Pixel => "pixel data length must be divisible by 3 (RGB)"@,
                BufferKind::Oklab => "oklab data length must be divisible by 3 (L,a,b)"@,
            },
        )
    } else {
        None
    }
}

fn kind_str(k: BufferKind) -> (r: &'static str)
    ensures
        r@ == kind_word(k),
{
    match k {
        BufferKind::Pixel => "pixel",
        BufferKind::Oklab => "oklab",
    }
}

/// A buffer is accepted exactly when it holds a whole number of pixels, at least one,
/// and no more values than the engine can address (`i32::MAX`).
pub proof fn lemma_buffer_accepted(k: BufferKind, len: nat)
    ensures
        buffer_problem(k, len) is None <==> (3 <= len <= 2147483647 && len % 3 == 0),
{
}

/// Check a buffer of `len` values before it is handed to the engine; a problem is
/// reported as an engine error with code -1.
pub fn check_buffer(k: BufferKind, len: usize) -> (r: Result<(), ColorScienceError>)
    ensures
        buffer_problem(k, len as nat) is None ==> r is Ok,
        buffer_problem(k, len as nat) matches Some(m) ==> (r matches Err(ColorScienceError::FfiError(c, s))
            && c == -1 && s@ == m),
{
    if len < 3 {
        return Err(ColorScienceError::FfiError(-1, concat(kind_str(k), " data must contain at least 3 values (1 pixel)")));
    }
    if len > 2147483647usize {
        let mut s = concat(kind_str(k), " data too large for FFI (");
        push_decimal(&mut s, len as u64);
        s.append(" elements, max 2147483647)");
        return Err(ColorScienceError::FfiError(-1, s));
    }
    if len % 3 != 0 {
        let m = match k {
            BufferKind::Pixel => "pixel data length must be divisible by 3 (RGB)",
            BufferKind::Oklab => "oklab data length must be divisible by 3 (L,a,b)",
        };
        return Err(ColorScienceError::FfiError(-1, String::from_str(m)));
    }
    Ok(())
}

/// The name of a colour space as the engine's messages show it.
pub open spec fn debug_name_spec(c: ACESColorSpace) -> Seq<char> {
    match c {
        ACESColorSpace::ACES2065_1 => "ACES2065_1"@,
        ACESColorSpace::ACEScg => "ACEScg"@,
        ACESColorSpace::ACEScct => "ACEScct"@,
        ACESColorSpace::Rec709 => "Rec709"@,
    }
}

/// The name of a colour space as the engine's messages show it.
pub fn debug_name(c: ACESColorSpace) -> (r: &'static str)
    ensures
        r@ == debug_name_spec(c),
{
    match c {
        ACESColorSpace::ACES2065_1 => "ACES2065_1",
        ACESColorSpace::ACEScg => "ACEScg",
        ACESColorSpace::ACEScct => "ACEScct",
        ACESColorSpace::Rec709 => "Rec709",
    }
}

/// Check a transform of `len` pixel values out of `src`: the buffer must be valid and
/// the source must not be log-encoded.
pub fn check_transform(len: usize, src: ACESColorSpace) -> (r: Result<(), ColorScienceError>)
    ensures
        buffer_problem(BufferKind::Pixel, len as nat) matches Some(m) ==> (r matches Err(ColorScienceError::FfiError(c, s))
            && c == -1 && s@ == m),
        buffer_problem(BufferKind::Pixel, len as nat) is None && src == ACESColorSpace::ACEScct ==> (r matches Err(
            ColorScienceError::LogDataRequiresConversion(s)) && s@ == "source color space "@
            + debug_name_spec(src) + " is log-encoded; convert to linear first"@),
        buffer_problem(BufferKind::Pixel, len as nat) is None && src != ACESColorSpace::ACEScct ==> r is Ok,
{
    check_buffer(BufferKind::Pixel, len)?;
    if src.is_log() {
        let a = concat("source color space ", debug_name(src));
        return Err(ColorScienceError::LogDataRequiresConversion(concat(a.as_str(), " is log-encoded; convert to linear first")));
    }
    Ok(())
}

/// The error for a failed transform: the engine's code and "src -> dst".
pub fn transform_failure(code: i32, src: ACESColorSpace, dst: ACESColorSpace) -> (r: ColorScienceError)
    ensures
        r matches ColorScienceError::FfiError(c, s) && c == code && s@ == debug_name_spec(src) + " -> "@
            + debug_name_spec(dst),
{
    let a = concat(debug_name(src), " -> ");
    ColorScienceError::FfiError(code, concat(a.as_str(), debug_name(dst)))
}

/// The number of values of a LUT of `g` samples per axis: three per grid point.
pub open spec fn lut_values(g: nat) -> nat {
    g * g * g * 3
}

/// Check a LUT request: 2 to 256 samples per axis and a source that is not
/// log-encoded. Gives the number of values the LUT holds.
pub fn lut_value_count(grid_size: u32, src: ACESColorSpace) -> (r: Result<usize, ColorScienceError>)
    ensures
        grid_size < 2 ==> (r matches Err(ColorScienceError::FfiError(c, s)) && c == -1 && s@
            == "grid_size "@ + decimal(grid_size as nat) + " must be >= 2"@),
        grid_size > 256 ==> (r matches Err(ColorScienceError::FfiError(c, s)) && c == -1 && s@
            == "grid_size "@ + decimal(grid_size as nat) + " must be <= 256"@),
        2 <= grid_size <= 256 && src == ACESColorSpace::ACEScct ==> (r matches Err(
            ColorScienceError::LogDataRequiresConversion(s)) && s@ == "source color space "@
            + debug_name_spec(src) + " is log-encoded; LUT generation requires linear input"@),
        2 <= grid_size <= 256 && src != ACESColorSpace::ACEScct ==> (r matches Ok(n) && n
            == lut_values(grid_size as nat)),
{
    if grid_size < 2 {
        let mut s = String::from_str("grid_size ");
        push_decimal(&mut s, grid_size as u64);
        s.append(" must be >= 2");
        return Err(ColorScienceError::FfiError(-1, s));
    }
    if grid_size > 256 {
        let mut s = String::from_str("grid_size ");
        push_decimal(&mut s, grid_size as u64);
        s.append(" must be <= 256");
        return Err(ColorScienceError::FfiError(-1, s));
    }
    if src.is_log() {
        let a = concat("source color space ", debug_name(src));
        return Err(ColorScienceError::LogDataRequiresConversion(concat(a.as_str(), " is log-encoded; LUT generation requires linear input")));
    }
    let g = grid_size as usize;
    assert(g * g <= 65536) by (nonlinear_arith)
        requires g <= 256;
    assert(g * g * g <= 16777216) by (nonlinear_arith)
        requires g <= 256, g * g <= 65536;
    Ok(g * g * g * 3)
}

/// The error for a failed LUT generation.
pub fn lut_failure(code: i32, grid_size: u32, src: ACESColorSpace, dst: ACESColorSpace) -> (r: ColorScienceError)
    ensures
        r matches ColorScienceError::FfiError(c, s) && c == code && s@ == "generate_lut grid_size="@
            + decimal(grid_size as nat) + " "@ + debug_name_spec(src) + " -> "@ + debug_name_spec(dst),
{
    let mut s = String::from_str("generate_lut grid_size=");
    push_decimal(&mut s, grid_size as u64);
    s.append(" ");
    s.append(debug_name(src));
    s.append(" -> ");
    s.append(debug_name(dst));
    ColorScienceError::FfiError(code, s)
}

/// The conversion to Oklab used for a colour-space tag.
#[derive(Debug, Clone, Copy, PartialEq, Eq, Structural)]
pub enum OklabConversion {
    /// From linear RGB.
    Linear,
    /// From ACEScct.
    AcesCct,
    /// From sRGB.
    Srgb,
}

/// The conversion to Oklab for a colour-space tag: "linear", "log" or "video"
/// (compared exactly); `None` for any other tag.
pub open spec fn oklab_conversion_spec(tag: Seq<char>) -> Option<OklabConversion> {
    if tag == "linear"@ {
        Some(OklabConversion::Linear)
    } else if tag == "log"@ {
        Some(OklabConversion::AcesCct)
    } else if tag == "video"@ {
        Some(OklabConversion::Srgb)
    } else {
        None
    }
}

/// The conversion to Oklab for a colour-space tag; other tags are unsupported.
pub fn oklab_conversion_for(tag: &str) -> (r: Result<OklabConversion, ColorScienceError>)
    ensures
        match oklab_conversion_spec(tag@) {
            Some(c) => r == Ok::<OklabConversion, ColorScienceError>(c),
            None => (r matches Err(ColorScienceError::UnsupportedTransform(m))
                && m@ == "unsupported color space tag '"@ + tag@ + "' for Oklab conversion"@),
        },
        tag@ == "linear"@ ==> r == Ok::<OklabConversion, ColorScienceError>(OklabConversion::Linear),
        tag@ == "log"@ ==> r == Ok::<OklabConversion, ColorScienceError>(OklabConversion::AcesCct),
        tag@ == "video"@ ==> r == Ok::<OklabConversion, ColorScienceError>(OklabConversion::Srgb),
        r is Ok <==> (tag@ == "linear"@ || tag@ == "log"@ || tag@ == "video"@),
{
    proof {
        reveal_strlit("linear");
        reveal_strlit("log");
        reveal_strlit("video");
        assert("linear"@.len() != "log"@.len());
        assert("linear"@.len() != "video"@.len());
        assert("log"@.len() != "video"@.len());
    }
    if str_eq(tag, "linear") {
        Ok(OklabConversion::Linear)
    } else if str_eq(tag, "log") {
        Ok(OklabConversion::AcesCct)
    } else if str_eq(tag, "video") {
        Ok(OklabConversion::Srgb)
    } else {
        let a = concat("unsupported color space tag '", tag);
        Err(ColorScienceError::UnsupportedTransform(concat(a.as_str(), "' for Oklab conversion")))
    }
}

/// The error for a failed grading-feature extraction over `len` Oklab values.
pub fn extraction_failure(code: i32, len: usize, color_space_tag: i32) -> (r: ColorScienceError)
    ensures
        r matches ColorScienceError::FfiError(c, s) && c == code && s@
            == "extract_grading_features pixels="@ + decimal((len / 3) as nat) + " color_space_tag="@
            + signed_decimal(color_space_tag as int),
{
    let mut s = String::from_str("extract_grading_features pixels=");
    push_decimal(&mut s, (len / 3) as u64);
    s.append(" color_space_tag=");
    push_signed_decimal(&mut s, color_space_tag as i64);
    ColorScienceError::FfiError(code, s)
}

} // verus!
