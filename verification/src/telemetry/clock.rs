//! Wall-clock access.

use vstd::prelude::*;

verus! {

/// Nanoseconds since the Unix epoch, or 0 if the clock is set before the epoch.
///
/// Calls `SystemTime::now()` and measures it from `UNIX_EPOCH`. Nothing is stated of
/// the value: it depends on the time at which it is read.
#[verifier::external_body]
pub(crate) fn unix_time_nanos() -> (nanos: u128) {
    std::time::SystemTime::now()
        .duration_since(std::time::UNIX_EPOCH)
        .unwrap_or_default()
        .as_nanos()
}

} // verus!
