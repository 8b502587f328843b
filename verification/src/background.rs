use vstd::prelude::*;
use std::time::{Duration, SystemTime, UNIX_EPOCH};

verus! {

#[verifier::external_type_specification]
#[verifier::external_body]
pub struct ExSystemTime(SystemTime);

/// The current time of the system clock (`SystemTime::now`).  Nothing is
/// stated of it: it depends on the clock.
#[verifier::external_body]
fn system_time_now() -> (t: SystemTime) {
    SystemTime::now()
}

/// How long after the Unix epoch `t` lies (`SystemTime::duration_since`),
/// or `None` when `t` lies before it.  Nothing is stated of the length: it
/// depends on the clock reading.
#[verifier::external_body]
fn duration_since_unix_epoch(t: SystemTime) -> (d: Option<Duration>) {
    match t.duration_since(UNIX_EPOCH) {
        Ok(d) => Some(d),
        Err(_) => None,
    }
}

/// The whole seconds of `d` (`Duration::as_secs`).
#[verifier::external_body]
fn duration_secs(d: &Duration) -> (s: u64) {
    d.as_secs()
}

/// The fractional part of `d` in whole milliseconds
/// (`Duration::subsec_millis`), which std documents to be below one
/// thousand.
#[verifier::external_body]
fn duration_subsec_millis(d: &Duration) -> (ms: u32)
    ensures
        ms < 1000,
{
    d.subsec_millis()
}

/// The rotation of the planet in the background, in tenths of a degree
/// turned, `secs` seconds and `millis` milliseconds after the epoch: it
/// turns once an hour, in steps of a fifth of a second.
pub open spec fn planet_rotation_spec(secs: int, millis: int) -> int {
    5 * (secs % 3600) + millis / 200
}

/// The planet's rotation at a given time since the epoch.
pub fn planet_rotation_at(secs: u64, millis: u32) -> (r: i32)
    requires
        millis < 1000,
    ensures
        r == planet_rotation_spec(secs as int, millis as int),
        0 <= r < 18000,
{
    let seconds = (secs % 3600) as i32;
    let subseconds = (millis / 200) as i32;
    5 * seconds + subseconds
}

/// The planet's rotation now, by the system clock (taken as the epoch
/// itself when the clock reads earlier than that).
pub fn get_planet_rotation() -> (r: i32)
    ensures
        0 <= r < 18000,
{
    let now = system_time_now();
    match duration_since_unix_epoch(now) {
        Some(d) => {
            let secs = duration_secs(&d);
            let millis = duration_subsec_millis(&d);
            planet_rotation_at(secs, millis)
        },
        None => planet_rotation_at(0, 0),
    }
}

} // verus!
