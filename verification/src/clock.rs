//! The wall clock.

use vstd::prelude::*;

verus! {

/// The current time in milliseconds since the Unix epoch.
/// Trusted: calls `chrono::Utc::now().timestamp_millis()`. `Utc::now` stops
/// the program on a system clock set before the epoch, so a value that
/// comes back is not negative; nothing more is stated of it, as it depends
/// on when it is called.
#[verifier::external_body]
pub(crate) fn now_millis() -> (r: i64)
    ensures
        r >= 0,
{
    chrono::Utc::now().timestamp_millis()
}

} // verus!
