//! The wall clock.

use vstd::prelude::*;

verus! {

/// `chrono::Utc::now().timestamp_millis()`: the milliseconds since the
/// Unix epoch by the system clock. Nothing is known of the value.
#[verifier::external_body]
pub(crate) fn now_millis() -> (millis: i64) {
    chrono::Utc::now().timestamp_millis()
}

/// `chrono::Utc::now().timestamp()`: the seconds since the Unix epoch by
/// the system clock. Nothing is known of the value.
#[verifier::external_body]
pub(crate) fn now_seconds() -> (seconds: i64) {
    chrono::Utc::now().timestamp()
}

} // verus!
