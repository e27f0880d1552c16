//! The one place the library reads the wall clock. Every consumer takes
//! the returned timestamp as a plain value, so all timing logic is
//! verified for every possible reading.

use vstd::prelude::*;

verus! {

/// Relies on chrono's `Utc::now` and `DateTime::timestamp_millis`: the
/// current wall-clock time as non-leap milliseconds since the Unix epoch.
/// `Utc::now` aborts on a system clock set before the epoch, so the
/// result is never negative and the cast is exact.
#[verifier::external_body]
pub(crate) fn now_millis() -> u64 {
    chrono::Utc::now().timestamp_millis() as u64
}

} // verus!
