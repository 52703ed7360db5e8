//! The wall clock.
use vstd::prelude::*;

verus! {

/// A bound on the distance from the Unix epoch, in milliseconds, of every
/// instant that chrono represents: its dates run from the year -262143 to the
/// year 262142, about 8.4·10^15 ms either side of the epoch.
pub open spec fn clock_span_millis() -> int {
    10_000_000_000_000_000
}

/// Whether `millis` (milliseconds since the epoch) is a time that the clock
/// can read: one within the span of chrono's dates.
pub open spec fn is_clock_millis(millis: int) -> bool {
    -clock_span_millis() < millis < clock_span_millis()
}

/// Whether `secs` (whole seconds since the epoch) is the whole second of a
/// time that the clock can read.
pub open spec fn is_clock_second(secs: int) -> bool {
    -clock_span_millis() / 1000 <= secs < clock_span_millis() / 1000
}

/// Reads `std::time::SystemTime::now()` and converts it with chrono's
/// `DateTime::<Utc>::from` (which also takes times before the epoch) and
/// `timestamp_millis()`: the current time in milliseconds since the Unix
/// epoch.  The conversion unwraps `Utc.timestamp_opt`, which has a value only
/// for dates within chrono's span (`MIN_YEAR` to `MAX_YEAR`), so every value
/// returned lies within that span (it panics for a clock set beyond it, which
/// no precondition can rule out).  Which time within the span is read is not
/// stated: the functions that use it take the time as an argument in a variant
/// with an exact contract.
#[verifier::external_body]
pub(crate) fn now_millis() -> (t: i64)
    ensures
        is_clock_millis(t as int),
{
    chrono::DateTime::<chrono::Utc>::from(std::time::SystemTime::now()).timestamp_millis()
}

/// The whole seconds since the epoch at the time `millis` (rounded down).
pub open spec fn seconds_of(millis: i64) -> int {
    millis / 1000
}

/// The current time in whole seconds since the Unix epoch.
pub(crate) fn now_seconds() -> (t: i64)
    ensures
        exists|m: i64| is_clock_millis(m as int) && t == seconds_of(m),
        is_clock_second(t as int),
{
    let m = now_millis();
    let s = m.checked_div_euclid(1000).unwrap();
    assert(s == seconds_of(m));
    s
}

} // verus!
