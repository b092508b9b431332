//! Trusted access to the system clock.
//!
//! Time is inherently nondeterministic, so nothing useful can be pinned down
//! about the values these return beyond their sign; all time-dependent logic
//! in this crate takes the current time as an explicit argument and is
//! verified for every value of it.

use vstd::prelude::*;

verus! {

/// Relies on std::time::SystemTime::now and duration_since(UNIX_EPOCH):
/// seconds since the Unix epoch, nonnegative by construction (a clock set
/// before the epoch reads as zero).
#[verifier::external_body]
pub fn now_unix_seconds() -> (r: i64)
    ensures
        0 <= r,
{
    match std::time::SystemTime::now().duration_since(std::time::UNIX_EPOCH) {
        Ok(d) => i64::try_from(d.as_secs()).unwrap_or(0),
        Err(_) => 0,
    }
}

/// Relies on std::time::SystemTime::now and duration_since(UNIX_EPOCH):
/// milliseconds since the Unix epoch (zero if the clock reads before the
/// epoch or past what a u64 can hold).
#[verifier::external_body]
pub fn now_unix_millis() -> (r: u64)
{
    match std::time::SystemTime::now().duration_since(std::time::UNIX_EPOCH) {
        Ok(d) => u64::try_from(d.as_millis()).unwrap_or(0),
        Err(_) => 0,
    }
}

} // verus!
