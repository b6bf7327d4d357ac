//! The wall clock, as whole seconds and milliseconds since the Unix epoch.

use vstd::prelude::*;
use std::time::{Duration, SystemTime, UNIX_EPOCH};

verus! {

#[verifier::external_type_specification]
#[verifier::external_body]
pub struct ExSystemTime(SystemTime);

/// Relies on `SystemTime`'s `Clone`: the type is `Copy`, so a clone is the
/// same instant.
pub assume_specification[ <SystemTime as Clone>::clone ](t: &SystemTime) -> (r: SystemTime)
    ensures
        r == *t,
;

/// Relies on `SystemTime::now`: the current time; nothing is known of it.
#[verifier::external_body]
fn system_now() -> (r: SystemTime) {
    SystemTime::now()
}

/// Relies on `SystemTime::duration_since` with the Unix epoch: `None` when
/// the time lies before the epoch.
#[verifier::external_body]
fn since_epoch(t: &SystemTime) -> (r: Option<Duration>) {
    t.duration_since(UNIX_EPOCH).ok()
}

/// Relies on `Duration::as_secs`: the whole seconds of a duration.
#[verifier::external_body]
fn whole_secs(d: &Duration) -> (r: u64) {
    d.as_secs()
}

/// Relies on `Duration::as_millis`: the whole milliseconds of a duration.
#[verifier::external_body]
fn whole_millis(d: &Duration) -> (r: u128) {
    d.as_millis()
}

/// Relies on `Duration::from_millis`: a duration of `ms` milliseconds.
#[verifier::external_body]
pub(crate) fn duration_from_millis(ms: u64) -> (r: Duration) {
    Duration::from_millis(ms)
}

/// Seconds since the Unix epoch; zero when the clock reads earlier.
pub fn current_timestamp() -> u64 {
    match since_epoch(&system_now()) {
        Some(d) => whole_secs(&d),
        None => 0,
    }
}

/// Milliseconds since the Unix epoch (low 64 bits); zero when the clock
/// reads earlier.
pub fn current_epoch_ms() -> u64 {
    match since_epoch(&system_now()) {
        Some(d) => whole_millis(&d) as u64,
        None => 0,
    }
}

} // verus!
