//! Reading the system clock.

use vstd::prelude::*;

verus! {

/// The system clock's time type.
#[verifier::external_type_specification]
#[verifier::external_body]
pub struct ExSystemTime(std::time::SystemTime);

/// The current time, from `std::time::SystemTime::now`.
///
/// Trusted: nothing is claimed of the value, which depends on the machine's clock.
#[verifier::external_body]
fn system_time_now() -> (t: std::time::SystemTime) {
    std::time::SystemTime::now()
}

/// The time elapsed from the Unix epoch to `t`, from
/// `SystemTime::duration_since`; `None` when `t` lies before the epoch.
///
/// Trusted: nothing is claimed of the value.
#[verifier::external_body]
fn elapsed_since_epoch(t: &std::time::SystemTime) -> (d: Option<std::time::Duration>) {
    t.duration_since(std::time::UNIX_EPOCH).ok()
}

/// The whole seconds of a duration, from `Duration::as_secs`.
///
/// Trusted: nothing is claimed of the value.
#[verifier::external_body]
fn whole_seconds(d: &std::time::Duration) -> (s: u64) {
    d.as_secs()
}

/// The whole milliseconds of a duration, from `Duration::as_millis`.
///
/// Trusted: nothing is claimed of the value.
#[verifier::external_body]
fn whole_millis(d: &std::time::Duration) -> (ms: u128) {
    d.as_millis()
}

/// Milliseconds since the Unix epoch by the system clock; zero for a clock
/// set before the epoch, and `u64::MAX` past the range of a `u64`.
pub fn unix_time_millis() -> (t: u64) {
    let now = system_time_now();
    match elapsed_since_epoch(&now) {
        Some(d) => {
            let ms = whole_millis(&d);
            if ms > u64::MAX as u128 {
                u64::MAX
            } else {
                ms as u64
            }
        },
        None => 0,
    }
}

/// Seconds since the Unix epoch by the system clock; zero for a clock set
/// before the epoch.
pub fn unix_time_secs() -> (t: u64) {
    let now = system_time_now();
    match elapsed_since_epoch(&now) {
        Some(d) => whole_seconds(&d),
        None => 0,
    }
}

} // verus!
