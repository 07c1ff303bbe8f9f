//! The boundary to the clocks of `std::time`: readings are taken here and
//! handed on as plain values.

use std::time::{Duration, Instant, SystemTime, SystemTimeError};
use vstd::prelude::*;

verus! {

/// `std::time::Instant`: a reading of the monotonic clock, carried as an opaque
/// value.
#[verifier::external_type_specification]
#[verifier::external_body]
pub struct ExInstant(std::time::Instant);

/// `std::time::SystemTime`: a reading of the wall clock, carried as an opaque
/// value.
#[verifier::external_type_specification]
#[verifier::external_body]
pub struct ExSystemTime(std::time::SystemTime);

/// `std::time::SystemTimeError`: the error of a wall clock reading that lies
/// before the time it is compared with, carried as an opaque value.
#[verifier::external_type_specification]
#[verifier::external_body]
pub struct ExSystemTimeError(std::time::SystemTimeError);

/// The whole length of a duration in nanoseconds.
pub uninterp spec fn duration_nanos(d: Duration) -> nat;

/// `Duration::from_secs`: a duration of that many whole seconds.
pub assume_specification[ Duration::from_secs ](secs: u64) -> (d: Duration)
    ensures
        duration_nanos(d) == secs as nat * 1_000_000_000,
;

/// `Duration::as_secs`: the whole seconds in the duration.
pub assume_specification[ Duration::as_secs ](d: &Duration) -> (secs: u64)
    ensures
        secs as nat == duration_nanos(*d) / 1_000_000_000,
;

/// `Duration::as_millis`: the whole milliseconds in the duration.
pub assume_specification[ Duration::as_millis ](d: &Duration) -> (millis: u128)
    ensures
        millis as nat == duration_nanos(*d) / 1_000_000,
;

/// `Duration::as_nanos`: the nanoseconds in the duration.
pub assume_specification[ Duration::as_nanos ](d: &Duration) -> (nanos: u128)
    ensures
        nanos as nat == duration_nanos(*d),
;

/// `Instant::now`: a reading of the monotonic clock. Nothing is claimed of it.
#[verifier::external_body]
pub(crate) fn instant_now() -> (t: Instant)
{
    Instant::now()
}

/// `Instant::elapsed`: the time since a reading of the monotonic clock.
/// Nothing is claimed of it.
#[verifier::external_body]
pub(crate) fn instant_elapsed(t: &Instant) -> (d: Duration)
{
    t.elapsed()
}

/// `SystemTime::now`: a reading of the wall clock. Nothing is claimed of it.
#[verifier::external_body]
pub(crate) fn system_now() -> (t: SystemTime)
{
    SystemTime::now()
}

/// `SystemTime::duration_since` against `UNIX_EPOCH`: the time between the
/// epoch and a reading of the wall clock, or an error where the reading lies
/// before the epoch. Nothing is claimed of it.
#[verifier::external_body]
pub(crate) fn since_unix_epoch(t: &SystemTime) -> (r: Result<Duration, SystemTimeError>)
{
    t.duration_since(std::time::UNIX_EPOCH)
}

/// The whole milliseconds of a duration as they fit 64 bits: the count modulo
/// 2^64.
pub open spec fn duration_millis(d: Duration) -> u64 {
    ((duration_nanos(d) / 1_000_000) % 0x1_0000_0000_0000_0000) as u64
}

/// The whole seconds of a duration.
pub open spec fn duration_secs(d: Duration) -> u64 {
    (duration_nanos(d) / 1_000_000_000) as u64
}

/// The whole milliseconds of a duration, cut to 64 bits.
pub fn millis_of(d: &Duration) -> (ms: u64)
    ensures
        ms == duration_millis(*d),
{
    let m: u128 = d.as_millis();
    (m % 0x1_0000_0000_0000_0000u128) as u64
}

/// The seconds since the Unix epoch that a reading of the wall clock stands
/// for: the whole seconds of the time since the epoch, and zero for a
/// reading that lies before the epoch.
pub open spec fn epoch_seconds(reading: Result<Duration, SystemTimeError>) -> u64 {
    match reading {
        Ok(d) => duration_secs(d),
        Err(_) => 0,
    }
}

/// The seconds since the Unix epoch for a reading of the wall clock against
/// the epoch.
pub fn timestamp_from(reading: Result<Duration, SystemTimeError>) -> (secs: u64)
    ensures
        secs == epoch_seconds(reading),
{
    match reading {
        Ok(d) => d.as_secs(),
        Err(_) => 0,
    }
}

/// Seconds since the Unix epoch on the wall clock: the whole seconds of a
/// reading of the clock against the epoch, and zero where the clock reads a
/// time before the epoch.
pub(crate) fn unix_timestamp() -> (secs: u64)
    ensures
        exists|reading: Result<Duration, SystemTimeError>| secs == #[trigger] epoch_seconds(reading),
{
    let now = system_now();
    let reading = since_unix_epoch(&now);
    let secs = timestamp_from(reading);
    assert(secs == epoch_seconds(reading));
    secs
}

} // verus!
