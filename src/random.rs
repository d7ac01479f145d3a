use vstd::prelude::*;

use std::time::{Duration, SystemTime, UNIX_EPOCH};

verus! {

#[verifier::external_type_specification]
#[verifier::external_body]
pub struct ExSystemTime(SystemTime);

/// Relies on `SystemTime::now`: reads the system clock.
#[verifier::external_body]
fn now() -> SystemTime {
    SystemTime::now()
}

/// Relies on `SystemTime::duration_since`: the time elapsed since the Unix epoch, or
/// `None` when the clock reads earlier than the epoch.
#[verifier::external_body]
fn since_epoch(t: &SystemTime) -> Option<Duration> {
    t.duration_since(UNIX_EPOCH).ok()
}

/// Relies on `Duration::subsec_nanos`: the fractional part of the duration in
/// nanoseconds, always below one billion.
#[verifier::external_body]
fn subsec_nanos(d: &Duration) -> (r: u32)
    ensures
        r < 1_000_000_000,
{
    d.subsec_nanos()
}

/// A number below `max_val` taken from the sub-second part of the system clock. It
/// carries no guarantee of distribution or unpredictability.
pub fn random_number(max_val: u32) -> (r: u32)
    requires
        max_val > 0,
    ensures
        r < max_val,
{
    let nanos: u32 = match since_epoch(&now()) {
        Some(d) => subsec_nanos(&d),
        None => 0,
    };
    nanos % max_val
}

/// A byte taken from the system clock.
pub fn random_byte() -> (r: u8) {
    random_number(256) as u8
}

} // verus!
