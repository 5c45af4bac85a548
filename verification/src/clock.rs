//! The library's one look at the wall clock.

use chrono::Utc;
use vstd::prelude::*;

verus! {

/// The present time in milliseconds since the Unix epoch.
///
/// Trusted: the body calls `chrono::Utc::now` and reads the result with
/// `chrono::DateTime::timestamp_millis`. The contract claims nothing of the
/// value: two readings may differ in any way. `Utc::now` panics where the
/// system clock stands before the epoch or beyond the dates that chrono can
/// express; no argument decides that, so no `requires` can leave it out.
#[verifier::external_body]
pub(crate) fn wall_clock_millis() -> i64 {
    Utc::now().timestamp_millis()
}

} // verus!
