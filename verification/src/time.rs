//! Durations and instants as plain integers, with `chrono` doing the
//! duration arithmetic it is responsible for.

use vstd::prelude::*;

verus! {

/// Microseconds in one second.
pub const MICROS_PER_SECOND: i64 = 1_000_000;

/// The largest number of whole seconds a `chrono::TimeDelta` can hold
/// (`i64::MAX` milliseconds, rounded down to whole seconds).
pub const MAX_DELTA_SECONDS: i64 = 9_223_372_036_854_775;

/// A number of seconds that `chrono::TimeDelta::seconds` accepts without panicking.
pub open spec fn delta_seconds_in_range(seconds: int) -> bool {
    -MAX_DELTA_SECONDS <= seconds <= MAX_DELTA_SECONDS
}

/// Calls `chrono::TimeDelta::hours(hours)` and reads the result back with
/// `num_seconds`. The source of `TimeDelta::hours` builds the delta from
/// `hours * 3600` seconds and panics when that leaves the range of
/// `TimeDelta::seconds`, which `requires` rules out.
#[verifier::external_body]
pub(crate) fn hours_in_seconds(hours: i64) -> (seconds: i64)
    requires
        delta_seconds_in_range(hours * 3600),
    ensures
        seconds == hours * 3600,
{
    chrono::TimeDelta::hours(hours).num_seconds()
}

/// Calls `chrono::TimeDelta::days(days)` and reads the result back with
/// `num_seconds`: `days * 86400` seconds, with the same bound as
/// `TimeDelta::seconds`.
#[verifier::external_body]
pub(crate) fn days_in_seconds(days: i64) -> (seconds: i64)
    requires
        delta_seconds_in_range(days * 86400),
    ensures
        seconds == days * 86400,
{
    chrono::TimeDelta::days(days).num_seconds()
}

/// Calls `chrono::TimeDelta::minutes(minutes)` and reads the result back
/// with `num_seconds`: `minutes * 60` seconds, with the same bound as
/// `TimeDelta::seconds`.
#[verifier::external_body]
pub(crate) fn minutes_in_seconds(minutes: i64) -> (seconds: i64)
    requires
        delta_seconds_in_range(minutes * 60),
    ensures
        seconds == minutes * 60,
{
    chrono::TimeDelta::minutes(minutes).num_seconds()
}

/// Calls `chrono::TimeDelta::seconds(seconds)` and reads the result back with
/// `num_seconds`, which for a delta of whole seconds gives the same number.
#[verifier::external_body]
pub(crate) fn whole_seconds(seconds: i64) -> (result: i64)
    requires
        delta_seconds_in_range(seconds as int),
    ensures
        result == seconds,
{
    chrono::TimeDelta::seconds(seconds).num_seconds()
}

/// The instant `seconds` whole seconds before `now` (both in the units of
/// this crate: microseconds for instants, seconds for durations).
pub open spec fn spec_instant_before(now: int, seconds: int) -> int {
    now - seconds * MICROS_PER_SECOND
}

/// Whether the instant `seconds` before `now` is representable.
pub open spec fn instant_before_representable(now: int, seconds: int) -> bool {
    i64::MIN <= spec_instant_before(now, seconds) <= i64::MAX
}

/// The instant `seconds` whole seconds before `now`.
pub fn instant_before(now: i64, seconds: i64) -> (result: i64)
    requires
        instant_before_representable(now as int, seconds as int),
    ensures
        result == spec_instant_before(now as int, seconds as int),
{
    let wide: i128 = (now as i128) - (seconds as i128) * (MICROS_PER_SECOND as i128);
    wide as i64
}

/// An instant given as whole microseconds (rounded down) plus the
/// sub-microsecond nanoseconds, rounded up to a whole microsecond.
pub open spec fn spec_round_up_to_micros(micros: int, subsec_nanos: int) -> int {
    if subsec_nanos % 1000 == 0 {
        micros
    } else {
        micros + 1
    }
}

/// The instant `micros` microseconds plus `subsec_nanos % 1000` nanoseconds
/// (the nanoseconds of the current second, as a clock reports them), rounded
/// up to a whole microsecond.
pub fn round_up_to_micros(micros: i64, subsec_nanos: u32) -> (result: i64)
    requires
        micros < i64::MAX,
    ensures
        result == spec_round_up_to_micros(micros as int, subsec_nanos as int),
{
    if subsec_nanos % 1000 == 0 {
        micros
    } else {
        micros + 1
    }
}

/// Rounding the current instant up to a whole microsecond keeps comparisons
/// exact: an instant `x` of whole microseconds lies strictly before
/// `now - seconds` (with `now` at nanosecond precision) exactly when it lies
/// strictly before the rounded instant minus `seconds`.
pub proof fn law_rounded_instant_compares_exactly(micros: int, subsec_nanos: nat, x: int, seconds: int)
    ensures
        x * 1000 < (micros * 1000 + subsec_nanos % 1000) - seconds * MICROS_PER_SECOND * 1000
            <==> x < spec_instant_before(spec_round_up_to_micros(micros, subsec_nanos as int), seconds),
{
}

} // verus!
