//! The wall clock.

use vstd::prelude::*;
use std::time::SystemTime;
use std::time::Duration;

verus! {

#[verifier::external_type_specification]
#[verifier::external_body]
pub struct ExSystemTime(SystemTime);

/// Calls `SystemTime::now`. The reading depends on the machine's clock, so
/// nothing is stated of it.
#[verifier::external_body]
fn system_now() -> SystemTime {
    SystemTime::now()
}

/// Calls `SystemTime::duration_since` with `UNIX_EPOCH`, keeping only the
/// `Ok` value; `None` when the reading lies before the epoch. Nothing is stated
/// of the duration, which depends on the clock.
#[verifier::external_body]
fn since_unix_epoch(t: &SystemTime) -> Option<Duration> {
    t.duration_since(std::time::UNIX_EPOCH).ok()
}

/// Calls `Duration::as_millis`. `Duration` is opaque here, so nothing is
/// stated of the result.
#[verifier::external_body]
fn duration_millis(d: &Duration) -> u128 {
    d.as_millis()
}

/// Milliseconds since the Unix epoch, or 0 when the clock reads earlier.
/// The value comes from the clock; no clause states it.
pub fn now_ms() -> u128 {
    let t = system_now();
    match since_unix_epoch(&t) {
        Some(d) => duration_millis(&d),
        None => 0,
    }
}

} // verus!
