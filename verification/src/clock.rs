//! The wall clock, as seconds and microseconds since the Unix epoch.
use vstd::prelude::*;
use std::time::{Duration, SystemTime, SystemTimeError, UNIX_EPOCH};

verus! {

/// `std::time::SystemTime`, carried as an opaque value.
#[verifier::external_type_specification]
#[verifier::external_body]
pub struct ExSystemTime(SystemTime);

/// `std::time::SystemTimeError`, carried as an opaque value.
#[verifier::external_type_specification]
#[verifier::external_body]
pub struct ExSystemTimeError(SystemTimeError);

/// Reads the clock with `SystemTime::now`. Nothing is known of the reading.
#[verifier::external_body]
fn system_now() -> SystemTime {
    SystemTime::now()
}

/// The time from the Unix epoch to `now`, by `SystemTime::duration_since`;
/// an error where `now` lies before the epoch.
#[verifier::external_body]
fn since_unix_epoch(now: &SystemTime) -> Result<Duration, SystemTimeError> {
    now.duration_since(UNIX_EPOCH)
}

/// The span of a reading, by `Result::unwrap_or_default`: the empty span of
/// `Duration::default` where the reading is an error.
#[verifier::external_body]
fn span_or_default(reading: Result<Duration, SystemTimeError>) -> Duration {
    reading.unwrap_or_default()
}

/// The whole microseconds of a duration, by `Duration::as_micros`.
#[verifier::external_body]
fn whole_micros(span: &Duration) -> u128 {
    span.as_micros()
}

/// The whole seconds of a duration, by `Duration::as_secs`.
#[verifier::external_body]
fn whole_secs(span: &Duration) -> u64 {
    span.as_secs()
}

/// Reads the clock: the whole microseconds from the Unix epoch to now. A
/// clock that stands before the epoch gives the default span. The result
/// is the reading and nothing else, so nothing is promised of it.
pub fn unix_micros() -> u128 {
    let now = system_now();
    let span = span_or_default(since_unix_epoch(&now));
    whole_micros(&span)
}

/// The most readings of the clock that `fresh_micros` waits for the
/// microsecond to pass.
pub const FRESH_WAIT_LIMIT: u32 = 100_000;

/// Reads the clock as `unix_micros` does, and returns once that
/// microsecond is over, so that a later reading differs from this one.
/// Where the clock stands still the wait ends after `FRESH_WAIT_LIMIT`
/// readings. The result is the first reading and nothing else, so nothing
/// is promised of it.
pub fn fresh_micros() -> u128 {
    let stamp = unix_micros();
    let mut readings: u32 = 0;
    while readings < FRESH_WAIT_LIMIT && unix_micros() == stamp
        invariant
            readings <= FRESH_WAIT_LIMIT,
        decreases FRESH_WAIT_LIMIT - readings,
    {
        readings += 1;
    }
    stamp
}

/// Reads the clock: the whole seconds from the Unix epoch to now. A clock
/// that stands before the epoch gives the default span. The result is the
/// reading and nothing else, so nothing is promised of it.
pub fn unix_secs() -> u64 {
    let now = system_now();
    let span = span_or_default(since_unix_epoch(&now));
    whole_secs(&span)
}

} // verus!
