use vstd::prelude::*;
use std::time::{Duration, SystemTime, UNIX_EPOCH};

verus! {

/// std's SystemTime, carried through opaquely.
#[verifier::external_type_specification]
#[verifier::external_body]
pub struct ExSystemTime(SystemTime);

/// Nanoseconds in one second.
pub const NANOS_PER_SEC: u32 = 1_000_000_000;

/// How far an instant lies from the epoch, as `SystemTime::duration_since`
/// against the epoch gives it: whether the instant lies before the epoch,
/// the whole seconds and the sub-second nanoseconds.
pub uninterp spec fn epoch_distance(t: SystemTime) -> (bool, u64, u32);

/// Relies on SystemTime::now: some instant, of which nothing is known.
#[verifier::external_body]
fn clock_now() -> SystemTime {
    SystemTime::now()
}

/// Relies on SystemTime::duration_since against the epoch: whether the
/// instant lies before the epoch, then the whole seconds and the
/// sub-second nanoseconds of its distance from it (Duration::subsec_nanos
/// is always below one billion).
#[verifier::external_body]
fn distance_from_epoch(t: &SystemTime) -> (r: (bool, u64, u32))
    ensures
        r == epoch_distance(*t),
        r.2 < NANOS_PER_SEC,
{
    match t.duration_since(UNIX_EPOCH) {
        Ok(d) => (false, d.as_secs(), d.subsec_nanos()),
        Err(e) => (true, e.duration().as_secs(), e.duration().subsec_nanos()),
    }
}

/// Relies on `SystemTime + Duration`: the instant `secs` seconds and
/// `nanos` nanoseconds after the epoch. Within these bounds a Unix
/// timestamp holds the result, so the addition does not panic, and
/// `duration_since` the epoch gives back the same distance.
#[verifier::external_body]
fn epoch_plus(secs: u64, nanos: u32) -> (r: SystemTime)
    requires
        secs <= i64::MAX as u64,
        nanos < NANOS_PER_SEC,
    ensures
        epoch_distance(r) == (false, secs, nanos),
{
    UNIX_EPOCH + Duration::new(secs, nanos)
}

/// Relies on `SystemTime - Duration`: the instant `secs` seconds and
/// `nanos` nanoseconds before the epoch. Within these bounds a Unix
/// timestamp holds the result, so the subtraction does not panic. For a
/// distance that is not zero, `duration_since` the epoch fails with an
/// error that holds that distance.
#[verifier::external_body]
fn epoch_minus(secs: u64, nanos: u32) -> (r: SystemTime)
    requires
        secs <= i64::MAX as u64,
        nanos < NANOS_PER_SEC,
    ensures
        (secs > 0 || nanos > 0) ==> epoch_distance(r) == (true, secs, nanos),
{
    UNIX_EPOCH - Duration::new(secs, nanos)
}

/// Signed seconds of a distance from the epoch, negative before it;
/// a magnitude beyond what `i64` holds saturates.
pub open spec fn signed_secs(before: bool, secs: u64) -> i64 {
    if !before {
        if secs <= i64::MAX as u64 {
            secs as i64
        } else {
            i64::MAX
        }
    } else {
        if secs <= i64::MAX as u64 {
            (-(secs as int)) as i64
        } else {
            i64::MIN
        }
    }
}

/// Turns a distance from the epoch into a signed-seconds, nanoseconds pair.
pub fn signed_time(before: bool, secs: u64, nanos: u32) -> (r: (i64, u32))
    ensures
        r == (signed_secs(before, secs), nanos),
{
    let s: i64 = if !before {
        if secs <= i64::MAX as u64 {
            secs as i64
        } else {
            i64::MAX
        }
    } else {
        if secs <= i64::MAX as u64 {
            -(secs as i64)
        } else {
            i64::MIN
        }
    };
    (s, nanos)
}

/// The signed seconds and nanoseconds of an instant's distance from the
/// epoch, negative before it.
pub open spec fn time_of(t: SystemTime) -> (i64, u32) {
    (signed_secs(epoch_distance(t).0, epoch_distance(t).1), epoch_distance(t).2)
}

/// The distance from the epoch that signed seconds and nanoseconds stand
/// for: a negative time counts both parts backwards from the epoch.
pub open spec fn distance_of(secs: i64, nsecs: u32) -> (bool, u64, u32) {
    if secs >= 0 {
        (false, secs as u64, nsecs)
    } else {
        (true, (-secs) as u64, nsecs)
    }
}

/// Converts an instant to signed seconds and nanoseconds since the epoch.
pub fn time_from_system_time(system_time: &SystemTime) -> (r: (i64, u32))
    ensures
        r == time_of(*system_time),
        r.1 < NANOS_PER_SEC,
{
    let (before, secs, nanos) = distance_from_epoch(system_time);
    signed_time(before, secs, nanos)
}

/// The current time as signed seconds and nanoseconds since the epoch.
pub fn time_now() -> (r: (i64, u32))
    ensures
        r.1 < NANOS_PER_SEC,
{
    time_from_system_time(&clock_now())
}

/// Converts signed seconds and nanoseconds since the epoch to an instant.
/// A negative time counts both parts backwards from the epoch.
pub fn system_time_from_time(secs: i64, nsecs: u32) -> (r: SystemTime)
    requires
        secs > i64::MIN,
        nsecs < NANOS_PER_SEC,
    ensures
        epoch_distance(r) == distance_of(secs, nsecs),
{
    if secs >= 0 {
        epoch_plus(secs as u64, nsecs)
    } else {
        epoch_minus((-secs) as u64, nsecs)
    }
}

/// Converting signed seconds and nanoseconds to an instant and back gives
/// the same pair.
pub proof fn lemma_time_round_trip(t: SystemTime, secs: i64, nsecs: u32)
    requires
        secs > i64::MIN,
        nsecs < NANOS_PER_SEC,
        epoch_distance(t) == distance_of(secs, nsecs),
    ensures
        time_of(t) == (secs, nsecs),
{
}

} // verus!
