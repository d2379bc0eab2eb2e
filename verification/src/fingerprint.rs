//! Colour fingerprints extracted by the colour engine: the size of their output, the
//! checks of their input, and their errors.

use vstd::prelude::*;
use crate::color_science::{buffer_problem, check_buffer, BufferKind};
use crate::color_space::ColorScienceError;
use crate::text::{concat, push_signed_decimal, signed_decimal};

verus! {

broadcast use vstd::string::group_string_axioms;

/// Histogram bins per channel.
pub const BINS_PER_CHANNEL: usize = 64;

/// Values of an engine fingerprint: three histograms, the luminance mean and its
/// standard deviation.
pub const OUTPUT_SIZE: usize = 194;

/// Errors of fingerprint extraction.
#[derive(Debug, Clone)]
pub enum FingerprintError {
    /// The colour engine is not linked.
    FfiUnavailable,
    /// The engine reported an error code, for a colour-space tag.
    FfiError(i32, String),
    /// The input is invalid.
    InvalidInput(String),
}

/// The text of a fingerprint error.
pub open spec fn fingerprint_error_text(e: FingerprintError) -> Seq<char> {
    match e {
        FingerprintError::FfiUnavailable => "FINGERPRINT_UNAVAILABLE -- MoonBit FFI library not linked"@,
        FingerprintError::FfiError(c, t) => "FINGERPRINT_FFI_ERROR -- code "@ + signed_decimal(c as int)
            + " for "@ + t@,
        FingerprintError::InvalidInput(m) => "FINGERPRINT_INVALID_INPUT -- "@ + m@,
    }
}

impl FingerprintError {
    /// The text of the error.
    pub fn message(&self) -> (r: String)
        ensures
            r@ == fingerprint_error_text(*self),
    {
        match self {
            FingerprintError::FfiUnavailable => String::from_str(
                "FINGERPRINT_UNAVAILABLE -- MoonBit FFI library not linked",
            ),
            FingerprintError::FfiError(c, t) => {
                let mut s = String::from_str("FINGERPRINT_FFI_ERROR -- code ");
                push_signed_decimal(&mut s, *c as i64);
                s.append(" for ");
                s.append(t.as_str());
                s
            },
            FingerprintError::InvalidInput(m) => concat("FINGERPRINT_INVALID_INPUT -- ", m.as_str()),
        }
    }
}

/// Check the pixel buffer of a fingerprint extraction (`len` RGB values).
pub fn check_fingerprint_input(len: usize) -> (r: Result<(), FingerprintError>)
    ensures
        buffer_problem(BufferKind::Pixel, len as nat) is None ==> r is Ok,
        buffer_problem(BufferKind::Pixel, len as nat) matches Some(m) ==> (r matches Err(
            FingerprintError::InvalidInput(s)) && s@ == m),
{
    match check_buffer(BufferKind::Pixel, len) {
        Ok(()) => Ok(()),
        Err(ColorScienceError::FfiError(_, m)) => Err(FingerprintError::InvalidInput(m)),
        Err(_) => Err(FingerprintError::InvalidInput(String::new())),
    }
}

/// Whether the colour engine is linked into this build; it is not, so every
/// extraction reports `FfiUnavailable`.
pub fn is_ffi_available() -> (r: bool)
    ensures
        !r,
{
    false
}

} // verus!
