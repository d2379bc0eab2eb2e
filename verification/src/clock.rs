//! Reading the system clock.

use vstd::prelude::*;

verus! {

/// The time elapsed since the Unix epoch, as whole seconds and the nanoseconds of the
/// second begun (`SystemTime::UNIX_EPOCH.elapsed()`); a clock set before the epoch
/// reads as zero. Only the range of the nanosecond part, which `Duration`
/// documents, is stated: the reading itself depends on the clock.
#[verifier::external_body]
pub(crate) fn unix_time() -> (r: (u64, u32))
    ensures
        r.1 < 1_000_000_000,
{
    let d = std::time::UNIX_EPOCH.elapsed().unwrap_or_default();
    (d.as_secs(), d.subsec_nanos())
}

/// Nanoseconds since the Unix epoch of a reading `(secs, subsec_nanos)`.
pub open spec fn reading_nanos(secs: u64, nanos: u32) -> nat {
    (secs as nat) * 1_000_000_000 + nanos as nat
}

/// Nanoseconds since the Unix epoch (as `Duration::as_nanos` gives them).
pub fn epoch_nanos() -> (r: u128)
    ensures
        exists|secs: u64, nanos: u32|
            nanos < 1_000_000_000 && r == #[trigger] reading_nanos(secs, nanos),
{
    let (secs, nanos) = unix_time();
    let total: u128 = (secs as u128) * 1_000_000_000u128 + (nanos as u128);
    assert(total == reading_nanos(secs, nanos));
    total
}

/// Whole seconds since the Unix epoch, as a signed count (`as_secs() as i64`); what
/// the clock reads is not stated.
pub fn epoch_now() -> (r: i64) {
    let (secs, _) = unix_time();
    secs as i64
}

} // verus!
