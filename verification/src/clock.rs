use vstd::prelude::*;

verus! {

/// Upper bound, in milliseconds since the Unix epoch, on any clock value the
/// library handles.  chrono's `DateTime` is limited to years up to about
/// 262,000, which keeps the millisecond count well below this bound.
pub const MAX_CLOCK_MS: i64 = 9_000_000_000_000_000;

/// Relies on `chrono::Utc::now().timestamp_millis()`: the number of non-leap
/// milliseconds since the Unix epoch.  chrono's `DateTime` range (years about
/// -262,000 to 262,000) keeps the result within `MAX_CLOCK_MS` of zero.
#[verifier::external_body]
pub(crate) fn now_millis() -> (r: i64)
    ensures
        -MAX_CLOCK_MS <= r <= MAX_CLOCK_MS,
{
    chrono::Utc::now().timestamp_millis()
}

} // verus!
