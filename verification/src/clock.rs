//! Access to the wall clock.

use vstd::prelude::*;

verus! {

/// Relies on `chrono::Utc::now` and `DateTime::timestamp_millis`: the current
/// wall-clock time as milliseconds since the Unix epoch. Nothing is assumed
/// of the value: the clock may jump forward or backward between two calls,
/// so callers state only what holds of every outcome. (`Utc::now` itself
/// panics if the system clock is set before the Unix epoch.)
#[verifier::external_body]
pub(crate) fn now_millis() -> i64 {
    chrono::Utc::now().timestamp_millis()
}

} // verus!
