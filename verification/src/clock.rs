use vstd::prelude::*;

verus! {

/// Milliseconds in thirty days: the default validity span of a prescription.
pub const MILLIS_THIRTY_DAYS: i64 = 2_592_000_000;

/// Milliseconds in a 365-day year: the validity span of a prescription for
/// chronic-disease drugs.
pub const MILLIS_ONE_YEAR: i64 = 31_536_000_000;

/// Every timestamp this library works with lies strictly within this bound,
/// so that adding a validity span to one never overflows an `i64`.
pub const TIMESTAMP_BOUND_MILLIS: i64 = 9_000_000_000_000_000;

/// Relies on `chrono::Utc::now` and `chrono::DateTime::timestamp_millis`: the
/// current time as non-leap milliseconds since the Unix epoch. chrono limits
/// its dates to roughly 262,000 years either side of the common era, which
/// keeps the value strictly inside `TIMESTAMP_BOUND_MILLIS`; nothing else can
/// be promised of a clock reading.
#[verifier::external_body]
pub(crate) fn now_millis() -> (r: i64)
    ensures
        -TIMESTAMP_BOUND_MILLIS < r < TIMESTAMP_BOUND_MILLIS,
{
    chrono::Utc::now().timestamp_millis()
}

} // verus!
