//! The system's clock.

use vstd::prelude::*;

verus! {

/// The clock: `chrono::Utc::now` and then `timestamp`, the seconds since
/// 1970-01-01 00:00:00 UTC. Nothing is claimed of the number. `now` panics
/// where the system's clock stands before 1970.
#[verifier::external_body]
pub(crate) fn unix_time_now() -> (seconds: i64) {
    chrono::Utc::now().timestamp()
}

} // verus!
