//! The wall clock.

use vstd::prelude::*;

verus! {

/// Trusted: reads the system clock through `chrono::Utc::now` and returns
/// the Unix timestamp in seconds. Nothing is promised about the value.
#[verifier::external_body]
pub(crate) fn unix_now() -> (now: i64) {
    chrono::Utc::now().timestamp()
}

} // verus!
