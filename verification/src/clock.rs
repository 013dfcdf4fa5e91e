//! Wall-clock access. The current time cannot be predicted, so nothing is
//! promised about the value; callers state what holds whatever it is.

use vstd::prelude::*;

verus! {

/// Relies on chrono's `Utc::now` for the current wall-clock time, returned
/// as milliseconds since the Unix epoch. The value depends on the clock, so
/// nothing is promised about it.
#[verifier::external_body]
pub fn now_millis() -> i64 {
    chrono::Utc::now().timestamp_millis()
}

} // verus!
