//! Points in time, as milliseconds since the Unix epoch in UTC.

use vstd::prelude::*;

verus! {

/// One day in milliseconds.
pub const MILLIS_PER_DAY: i64 = 86_400_000;

/// A bound above every instant `chrono` can represent (in milliseconds).
pub const LATEST_MILLIS: i64 = 9_000_000_000_000_000;

/// `chrono::Utc::now()` in milliseconds since the epoch. `Utc::now` panics
/// for a system clock before the epoch and `chrono` represents no instant
/// past `LATEST_MILLIS`, so the value lies between; which instant it is,
/// nothing says.
#[verifier::external_body]
pub(crate) fn now_millis() -> (r: i64)
    ensures
        0 <= r < LATEST_MILLIS,
{
    chrono::Utc::now().timestamp_millis()
}

} // verus!
