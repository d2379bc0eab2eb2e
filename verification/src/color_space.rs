//! Colour-space identifiers, their string forms and the FFI tags they map to.

use vstd::prelude::*;
use crate::text::{
    str_eq, to_lowercase, concat, push_decimal, push_signed_decimal, unicode_lowercase,
    decimal, signed_decimal,
};

verus! {

broadcast use vstd::string::group_string_axioms;

/// ACES colour-space identifiers used at the colour-science boundary.
#[derive(Debug, Clone, Copy, PartialEq, Eq, Structural)]
pub enum ACESColorSpace {
    ACES2065_1,
    ACEScg,
    ACEScct,
    Rec709,
}

/// The colour space named by an already lower-cased name; unknown names mean ACEScg.
pub open spec fn aces_from_lower(s: Seq<char>) -> ACESColorSpace {
    if s == "aces2065-1"@ || s == "aces2065_1"@ || s == "ap0"@ {
        ACESColorSpace::ACES2065_1
    } else if s == "acescg"@ || s == "ap1"@ {
        ACESColorSpace::ACEScg
    } else if s == "acescct"@ {
        ACESColorSpace::ACEScct
    } else if s == "rec709"@ || s == "srgb"@ || s == "bt709"@ {
        ACESColorSpace::Rec709
    } else {
        ACESColorSpace::ACEScg
    }
}

/// The names of each ACES space: AP0 names ACES2065-1, AP1 and ACEScg name ACEScg,
/// ACEScct its own, and Rec.709, sRGB and BT.709 name Rec709; any other name means
/// ACEScg.
pub proof fn lemma_aces_names(s: Seq<char>)
    ensures
        (s == "aces2065-1"@ || s == "aces2065_1"@ ||
            s == "ap0"@) ==> aces_from_lower(s) == ACESColorSpace::ACES2065_1,
        (s == "acescg"@ || s == "ap1"@) ==> aces_from_lower(s) == ACESColorSpace::ACEScg,
        (s == "acescct"@) ==> aces_from_lower(s) == ACESColorSpace::ACEScct,
        (s == "rec709"@ || s == "srgb"@ || s == "bt709"@) ==> aces_from_lower(s) == ACESColorSpace::Rec709,
        !(s == "aces2065-1"@ || s == "aces2065_1"@ || s == "ap0"@ || s == "acescg"@ || s == "ap1"@ ||
            s == "acescct"@ || s == "rec709"@ || s == "srgb"@ ||
            s == "bt709"@) ==> aces_from_lower(s) == ACESColorSpace::ACEScg,
{
    reveal_strlit("aces2065-1");
    reveal_strlit("aces2065_1");
    reveal_strlit("ap0");
    reveal_strlit("acescg");
    reveal_strlit("ap1");
    reveal_strlit("acescct");
    reveal_strlit("rec709");
    reveal_strlit("srgb");
    reveal_strlit("bt709");
    assert("aces2065-1"@[8] != "aces2065_1"@[8]);
    assert("aces2065-1"@.len() != "ap0"@.len());
    assert("aces2065-1"@.len() != "acescg"@.len());
    assert("aces2065-1"@.len() != "ap1"@.len());
    assert("aces2065-1"@.len() != "acescct"@.len());
    assert("aces2065-1"@.len() != "rec709"@.len());
    assert("aces2065-1"@.len() != "srgb"@.len());
    assert("aces2065-1"@.len() != "bt709"@.len());
    assert("aces2065_1"@.len() != "ap0"@.len());
    assert("aces2065_1"@.len() != "acescg"@.len());
    assert("aces2065_1"@.len() != "ap1"@.len());
    assert("aces2065_1"@.len() != "acescct"@.len());
    assert("aces2065_1"@.len() != "rec709"@.len());
    assert("aces2065_1"@.len() != "srgb"@.len());
    assert("aces2065_1"@.len() != "bt709"@.len());
    assert("ap0"@.len() != "acescg"@.len());
    assert("ap0"@[2] != "ap1"@[2]);
    assert("ap0"@.len() != "acescct"@.len());
    assert("ap0"@.len() != "rec709"@.len());
    assert("ap0"@.len() != "srgb"@.len());
    assert("ap0"@.len() != "bt709"@.len());
    assert("acescg"@.len() != "ap1"@.len());
    assert("acescg"@.len() != "acescct"@.len());
    assert("acescg"@[0] != "rec709"@[0]);
    assert("acescg"@.len() != "srgb"@.len());
    assert("acescg"@.len() != "bt709"@.len());
    assert("ap1"@.len() != "acescct"@.len());
    assert("ap1"@.len() != "rec709"@.len());
    assert("ap1"@.len() != "srgb"@.len());
    assert("ap1"@.len() != "bt709"@.len());
    assert("acescct"@.len() != "rec709"@.len());
    assert("acescct"@.len() != "srgb"@.len());
    assert("acescct"@.len() != "bt709"@.len());
    assert("rec709"@.len() != "srgb"@.len());
    assert("rec709"@.len() != "bt709"@.len());
    assert("srgb"@.len() != "bt709"@.len());
}

/// The default ACES space implied by an encoding tag ("linear", "log", "video").
pub open spec fn aces_from_encoding(s: Seq<char>) -> ACESColorSpace {
    if s == "log"@ {
        ACESColorSpace::ACEScct
    } else if s == "video"@ {
        ACESColorSpace::Rec709
    } else {
        ACESColorSpace::ACEScg
    }
}

impl ACESColorSpace {
    /// Identify a colour space from a name that is already lower case.
    pub fn from_lowercase_name(s: &str) -> (r: Self)
        ensures
            r == aces_from_lower(s@),
            (s@ == "aces2065-1"@ || s@ == "aces2065_1"@ || s@ == "ap0"@) ==> r == ACESColorSpace::ACES2065_1,
            (s@ == "acescg"@ || s@ == "ap1"@) ==> r == ACESColorSpace::ACEScg,
            (s@ == "acescct"@) ==> r == ACESColorSpace::ACEScct,
            (s@ == "rec709"@ || s@ == "srgb"@ || s@ == "bt709"@) ==> r == ACESColorSpace::Rec709,
            !(s@ == "aces2065-1"@ || s@ == "aces2065_1"@ || s@ == "ap0"@ || s@ == "acescg"@ ||
                s@ == "ap1"@ || s@ == "acescct"@ || s@ == "rec709"@ || s@ == "srgb"@ ||
                s@ == "bt709"@) ==> r == ACESColorSpace::ACEScg,
    {
        proof {
            lemma_aces_names(s@);
        }
        if str_eq(s, "aces2065-1") || str_eq(s, "aces2065_1") || str_eq(s, "ap0") {
            ACESColorSpace::ACES2065_1
        } else if str_eq(s, "acescg") || str_eq(s, "ap1") {
            ACESColorSpace::ACEScg
        } else if str_eq(s, "acescct") {
            ACESColorSpace::ACEScct
        } else if str_eq(s, "rec709") || str_eq(s, "srgb") || str_eq(s, "bt709") {
            ACESColorSpace::Rec709
        } else {
            ACESColorSpace::ACEScg
        }
    }

    /// Identify a colour space by name, ignoring case; unknown names mean ACEScg.
    pub fn from_str(s: &str) -> (r: Self)
        ensures
            r == aces_from_lower(unicode_lowercase(s@)),
    {
        let lower = to_lowercase(s);
        Self::from_lowercase_name(lower.as_str())
    }

    /// Same as `from_str`: unknown names fall back to ACEScg.
    pub fn parse(s: &str) -> (r: Self)
        ensures
            r == aces_from_lower(unicode_lowercase(s@)),
    {
        Self::from_str(s)
    }

    /// Colour space stored in a fingerprint's explicit ACES column; NULL means ACEScg.
    pub fn from_aces_column(column: Option<&str>) -> (r: Self)
        ensures
            column is None ==> r == ACESColorSpace::ACEScg,
            column matches Some(s) ==> r == aces_from_lower(unicode_lowercase(s@)),
    {
        match column {
            None => ACESColorSpace::ACEScg,
            Some(s) => Self::from_str(s),
        }
    }

    /// Default ACES space for an encoding tag: log is ACEScct, video is Rec709,
    /// anything else ACEScg.
    pub fn infer_from_encoding_tag(tag: &str) -> (r: Self)
        ensures
            r == aces_from_encoding(tag@),
            tag@ == "log"@ ==> r == ACESColorSpace::ACEScct,
            tag@ == "video"@ ==> r == ACESColorSpace::Rec709,
            tag@ != "log"@ && tag@ != "video"@ ==> r == ACESColorSpace::ACEScg,
    {
        proof {
            reveal_strlit("log");
            reveal_strlit("video");
            assert("log"@.len() != "video"@.len());
        }
        if str_eq(tag, "log") {
            ACESColorSpace::ACEScct
        } else if str_eq(tag, "video") {
            ACESColorSpace::Rec709
        } else {
            ACESColorSpace::ACEScg
        }
    }

    /// Integer tag passed to the colour-science engine.
    pub fn as_int(&self) -> (r: i32)
        ensures
            r == aces_int(*self),
            *self == ACESColorSpace::ACES2065_1 ==> r == 10,
            *self == ACESColorSpace::ACEScg ==> r == 11,
            *self == ACESColorSpace::ACEScct ==> r == 12,
            *self == ACESColorSpace::Rec709 ==> r == 20,
    {
        match self {
            ACESColorSpace::ACES2065_1 => 10,
            ACESColorSpace::ACEScg => 11,
            ACESColorSpace::ACEScct => 12,
            ACESColorSpace::Rec709 => 20,
        }
    }

    /// Whether the space is log-encoded (only ACEScct is).
    pub fn is_log(&self) -> (r: bool)
        ensures
            r == (*self == ACESColorSpace::ACEScct),
    {
        matches!(self, ACESColorSpace::ACEScct)
    }
}

/// The integer tag of each ACES space.
pub open spec fn aces_int(c: ACESColorSpace) -> i32 {
    match c {
        ACESColorSpace::ACES2065_1 => 10,
        ACESColorSpace::ACEScg => 11,
        ACESColorSpace::ACEScct => 12,
        ACESColorSpace::Rec709 => 20,
    }
}

/// Distinct spaces have distinct integer tags.
pub proof fn lemma_aces_int_injective(a: ACESColorSpace, b: ACESColorSpace)
    ensures
        aces_int(a) == aces_int(b) ==> a == b,
{
}

/// Encoding tag of pixel data at the fingerprint FFI boundary.
#[derive(Debug, Clone, Copy, PartialEq, Eq, Structural)]
pub enum ColorSpaceTag {
    Linear,
    Log,
    Video,
}

/// The tag named by a string; anything but "log" and "video" is linear.
pub open spec fn tag_from_str(s: Seq<char>) -> ColorSpaceTag {
    if s == "log"@ {
        ColorSpaceTag::Log
    } else if s == "video"@ {
        ColorSpaceTag::Video
    } else {
        ColorSpaceTag::Linear
    }
}

/// The integer of each tag: linear 0, log 1, video 2.
pub open spec fn tag_int(t: ColorSpaceTag) -> i32 {
    match t {
        ColorSpaceTag::Linear => 0,
        ColorSpaceTag::Log => 1,
        ColorSpaceTag::Video => 2,
    }
}

impl ColorSpaceTag {
    /// Parse a tag; unknown strings mean linear.
    pub fn parse(s: &str) -> (r: Self)
        ensures
            r == tag_from_str(s@),
            s@ == "log"@ ==> r == ColorSpaceTag::Log,
            s@ == "video"@ ==> r == ColorSpaceTag::Video,
            s@ != "log"@ && s@ != "video"@ ==> r == ColorSpaceTag::Linear,
    {
        proof {
            reveal_strlit("log");
            reveal_strlit("video");
            assert("log"@.len() != "video"@.len());
        }
        if str_eq(s, "log") {
            ColorSpaceTag::Log
        } else if str_eq(s, "video") {
            ColorSpaceTag::Video
        } else {
            ColorSpaceTag::Linear
        }
    }

    /// Integer form of the tag.
    pub fn as_int(&self) -> (r: i32)
        ensures
            r == tag_int(*self),
            *self == ColorSpaceTag::Linear ==> r == 0,
            *self == ColorSpaceTag::Log ==> r == 1,
            *self == ColorSpaceTag::Video ==> r == 2,
    {
        match self {
            ColorSpaceTag::Linear => 0,
            ColorSpaceTag::Log => 1,
            ColorSpaceTag::Video => 2,
        }
    }
}

/// Map a DPX transfer characteristic to a colour-space tag string.
pub open spec fn transfer_to_tag(t: Seq<char>) -> Seq<char> {
    if t == "printing_density"@ || t == "logarithmic"@ {
        "log"@
    } else if t == "bt709"@ || t == "bt601_bg"@ || t == "bt601_m"@ || t == "smpte_274m"@
        || t == "unspecified_video"@ || t == "ntsc_composite"@ || t == "pal_composite"@ {
        "video"@
    } else {
        "linear"@
    }
}

/// Every video transfer characteristic is tagged "video", every log one "log", and
/// any other "linear"; no characteristic is both video and log.
pub proof fn lemma_transfer_tags(t: Seq<char>)
    ensures
        (t == "bt709"@ || t == "bt601_bg"@ || t == "bt601_m"@ || t == "smpte_274m"@ ||
            t == "unspecified_video"@ || t == "ntsc_composite"@ ||
            t == "pal_composite"@) ==> transfer_to_tag(t) == "video"@,
        (t == "printing_density"@ || t == "logarithmic"@) ==> transfer_to_tag(t) == "log"@,
        !(t == "bt709"@ || t == "bt601_bg"@ || t == "bt601_m"@ || t == "smpte_274m"@ ||
            t == "unspecified_video"@ || t == "ntsc_composite"@ ||
            t == "pal_composite"@) && !(t == "printing_density"@ ||
            t == "logarithmic"@) ==> transfer_to_tag(t) == "linear"@,
        !((t == "bt709"@ || t == "bt601_bg"@ || t == "bt601_m"@ || t == "smpte_274m"@ ||
            t == "unspecified_video"@ || t == "ntsc_composite"@ ||
            t == "pal_composite"@) && (t == "printing_density"@ || t == "logarithmic"@)),
        color_tag_for("dpx"@, Some(t)) == transfer_to_tag(t),
{
    reveal_strlit("printing_density");
    reveal_strlit("logarithmic");
    reveal_strlit("bt709");
    reveal_strlit("bt601_bg");
    reveal_strlit("bt601_m");
    reveal_strlit("smpte_274m");
    reveal_strlit("unspecified_video");
    reveal_strlit("ntsc_composite");
    reveal_strlit("pal_composite");
    assert("printing_density"@.len() == 16 && "logarithmic"@.len() == 11);
    assert("bt709"@.len() == 5 && "bt601_bg"@.len() == 8 && "bt601_m"@.len() == 7);
    assert("smpte_274m"@.len() == 10 && "unspecified_video"@.len() == 17);
    assert("ntsc_composite"@.len() == 14 && "pal_composite"@.len() == 13);
}

/// A file that is not DPX is tagged linear, whatever its transfer characteristic, and
/// a DPX file without one too.
pub proof fn lemma_non_dpx_linear(format: Seq<char>, transfer: Option<Seq<char>>)
    ensures
        format != "dpx"@ ==> color_tag_for(format, transfer) == "linear"@,
        color_tag_for("dpx"@, None) == "linear"@,
{
}

/// Map a DPX transfer characteristic string to a colour-space tag for fingerprint extraction.
pub fn map_transfer_string_to_color_tag(transfer: &str) -> (r: String)
    ensures
        r@ == transfer_to_tag(transfer@),
        (transfer@ == "bt709"@ || transfer@ == "bt601_bg"@ || transfer@ == "bt601_m"@ ||
            transfer@ == "smpte_274m"@ || transfer@ == "unspecified_video"@ ||
            transfer@ == "ntsc_composite"@ || transfer@ == "pal_composite"@) ==> r@ == "video"@,
        (transfer@ == "printing_density"@ || transfer@ == "logarithmic"@) ==> r@ == "log"@,
        !(transfer@ == "bt709"@ || transfer@ == "bt601_bg"@ || transfer@ == "bt601_m"@ ||
            transfer@ == "smpte_274m"@ || transfer@ == "unspecified_video"@ ||
            transfer@ == "ntsc_composite"@ ||
            transfer@ == "pal_composite"@) && !(transfer@ == "printing_density"@ ||
            transfer@ == "logarithmic"@) ==> r@ == "linear"@,
{
    proof {
        lemma_transfer_tags(transfer@);
    }
    if str_eq(transfer, "printing_density") || str_eq(transfer, "logarithmic") {
        String::from_str("log")
    } else if str_eq(transfer, "bt709") || str_eq(transfer, "bt601_bg") || str_eq(
        transfer,
        "bt601_m",
    ) || str_eq(transfer, "smpte_274m") || str_eq(transfer, "unspecified_video") || str_eq(
        transfer,
        "ntsc_composite",
    ) || str_eq(transfer, "pal_composite") {
        String::from_str("video")
    } else {
        String::from_str("linear")
    }
}

/// Colour-space tag of a file: DPX uses its transfer string (linear when absent),
/// every other format is linear.
pub open spec fn color_tag_for(format: Seq<char>, transfer: Option<Seq<char>>) -> Seq<char> {
    if format == "dpx"@ {
        match transfer {
            Some(t) => transfer_to_tag(t),
            None => "linear"@,
        }
    } else {
        "linear"@
    }
}

/// Determine the colour-space tag from file format and optional transfer characteristic.
pub fn determine_color_tag(format: &str, transfer: Option<&str>) -> (r: String)
    ensures
        r@ == color_tag_for(format@, match transfer { Some(t) => Some(t@), None => None }),
        format@ == "dpx"@ ==> (transfer matches Some(t) && (t@ == "bt709"@ || t@ == "bt601_bg"@ ||
            t@ == "bt601_m"@ || t@ == "smpte_274m"@ || t@ == "unspecified_video"@ ||
            t@ == "ntsc_composite"@ || t@ == "pal_composite"@) ==> r@ == "video"@),
        format@ == "dpx"@ ==> (transfer matches Some(t) && (t@ == "printing_density"@ ||
            t@ == "logarithmic"@) ==> r@ == "log"@),
        format@ == "dpx"@ ==> (transfer matches Some(t) && !(t@ == "bt709"@ || t@ == "bt601_bg"@ ||
            t@ == "bt601_m"@ || t@ == "smpte_274m"@ || t@ == "unspecified_video"@ ||
            t@ == "ntsc_composite"@ || t@ == "pal_composite"@) && !(t@ == "printing_density"@ ||
            t@ == "logarithmic"@)
            ==> r@ == "linear"@),
        format@ != "dpx"@ || transfer is None ==> r@ == "linear"@,
{
    proof {
        match transfer {
            Some(t) => lemma_transfer_tags(t@),
            None => {},
        }
        lemma_non_dpx_linear(format@, match transfer { Some(t) => Some(t@), None => None });
    }
    if str_eq(format, "dpx") {
        match transfer {
            Some(t) => map_transfer_string_to_color_tag(t),
            None => String::from_str("linear"),
        }
    } else {
        String::from_str("linear")
    }
}

/// Integer of a colour-space tag string: log 1, video 2, anything else 0.
pub open spec fn tag_str_int(t: Seq<char>) -> i32 {
    if t == "log"@ {
        1
    } else if t == "video"@ {
        2
    } else {
        0
    }
}

/// Convert a colour-space tag string to the integer the feature extractor takes.
pub fn color_tag_to_int(color_tag: &str) -> (r: i32)
    ensures
        r == tag_str_int(color_tag@),
        color_tag@ == "log"@ ==> r == 1,
        color_tag@ == "video"@ ==> r == 2,
        color_tag@ != "log"@ && color_tag@ != "video"@ ==> r == 0,
{
    proof {
        reveal_strlit("log");
        reveal_strlit("video");
        assert("log"@.len() != "video"@.len());
    }
    if str_eq(color_tag, "log") {
        1
    } else if str_eq(color_tag, "video") {
        2
    } else {
        0
    }
}

/// The two readings of a colour-space tag string agree: the integer that the
/// feature extractor is given is the integer of the fingerprint tag the string
/// names, and every tag a file is given (from its format and transfer
/// characteristic) is read back as a known tag with that same integer.
pub proof fn lemma_tag_readings_agree(s: Seq<char>, format: Seq<char>, transfer: Option<Seq<char>>)
    ensures
        tag_int(tag_from_str(s)) == tag_str_int(s),
        tag_str_int(color_tag_for(format, transfer)) == tag_int(tag_from_str(color_tag_for(format, transfer))),
        color_tag_for(format, transfer) == "linear"@ || color_tag_for(format, transfer) == "log"@
            || color_tag_for(format, transfer) == "video"@,
{
}

/// Errors of the colour-science operations.
#[derive(Debug, Clone, PartialEq, Eq)]
pub enum ColorScienceError {
    /// The colour-science library is not linked.
    FfiUnavailable,
    /// The colour-science library or an input check reported an error code.
    FfiError(i32, String),
    /// Log-encoded data must be converted before an ACES transform.
    LogDataRequiresConversion(String),
    /// The requested transform is not supported.
    UnsupportedTransform(String),
    /// A grading-feature BLOB could not be decoded.
    GradingFeatureDecodeError(String),
}

/// The display text of a colour-science error.
pub open spec fn color_science_error_text(e: ColorScienceError) -> Seq<char> {
    match e {
        ColorScienceError::FfiUnavailable =>
            "COLOR_SCIENCE_UNAVAILABLE -- MoonBit FFI library not linked"@,
        ColorScienceError::FfiError(code, ctx) =>
            "COLOR_SCIENCE_FFI_ERROR -- code "@ + signed_decimal(code as int) + " for "@ + ctx@,
        ColorScienceError::LogDataRequiresConversion(m) => "COLOR_SCIENCE_LOG_REQUIRED -- "@ + m@,
        ColorScienceError::UnsupportedTransform(m) => "COLOR_SCIENCE_UNSUPPORTED -- "@ + m@,
        ColorScienceError::GradingFeatureDecodeError(m) => "GRADING_FEATURE_DECODE_ERROR -- "@
            + m@,
    }
}

impl ColorScienceError {
    /// The error's display text.
    pub fn message(&self) -> (r: String)
        ensures
            r@ == color_science_error_text(*self),
    {
        match self {
            ColorScienceError::FfiUnavailable => String::from_str(
                "COLOR_SCIENCE_UNAVAILABLE -- MoonBit FFI library not linked",
            ),
            ColorScienceError::FfiError(code, ctx) => {
                let mut s = String::from_str("COLOR_SCIENCE_FFI_ERROR -- code ");
                push_signed_decimal(&mut s, *code as i64);
                s.append(" for ");
                s.append(ctx.as_str());
                s
            },
            ColorScienceError::LogDataRequiresConversion(m) => concat(
                "COLOR_SCIENCE_LOG_REQUIRED -- ",
                m.as_str(),
            ),
            ColorScienceError::UnsupportedTransform(m) => concat(
                "COLOR_SCIENCE_UNSUPPORTED -- ",
                m.as_str(),
            ),
            ColorScienceError::GradingFeatureDecodeError(m) => concat(
                "GRADING_FEATURE_DECODE_ERROR -- ",
                m.as_str(),
            ),
        }
    }
}

} // verus!
