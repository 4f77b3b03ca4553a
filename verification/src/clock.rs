//! The wall clock.

use vstd::prelude::*;

verus! {

/// Calls `chrono::Utc::now` and reads the result's `timestamp`: the whole
/// seconds since the Unix epoch. Trusted, with nothing promised of the
/// value, which differs from call to call. `Utc::now` panics where the
/// system clock stands before the epoch.
#[verifier::external_body]
pub(crate) fn current_timestamp() -> (seconds: i64) {
    chrono::Utc::now().timestamp()
}

} // verus!
