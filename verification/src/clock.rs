//! The wall clock, as `chrono` reads it.

use vstd::prelude::*;

verus! {

/// Reads the current time with `chrono::Utc::now` and writes it in the
/// format of RFC 3339.
///
/// Trusted, and silent about the outcome, which is the time of the call.
/// `now` panics where the system clock stands before the Unix epoch.
#[verifier::external_body]
pub(crate) fn utc_now_rfc3339() -> (text: String) {
    chrono::Utc::now().to_rfc3339()
}

} // verus!
