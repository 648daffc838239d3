//! Nanosecond timestamp source.

use vstd::prelude::*;

verus! {

/// Current wall-clock time in nanoseconds since the Unix epoch, truncated to
/// 64 bits; 0 if the clock reads before the epoch.
///
/// Relies on `std::time::SystemTime::now` and
/// `SystemTime::duration_since(UNIX_EPOCH)`.  The value depends on the
/// machine's clock, so nothing is promised of it: callers state what holds
/// whatever value comes back.
#[verifier::external_body]
pub fn get_timestamp_ns() -> u64 {
    match std::time::SystemTime::now().duration_since(std::time::UNIX_EPOCH) {
        Ok(d) => d.as_nanos() as u64,
        Err(_) => 0,
    }
}

} // verus!
