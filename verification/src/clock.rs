//! The wall clock, read through the `chrono` crate.

use vstd::prelude::*;

verus! {

/// Takes the system time, turns it into a `chrono::DateTime<Utc>` and takes
/// its `timestamp`: the whole seconds since the Unix epoch, negative for a
/// system clock that stands before 1970.
///
/// Nothing is claimed of the result: the clock decides.
#[verifier::external_body]
fn utc_timestamp() -> (secs: i64) {
    chrono::DateTime::<chrono::Utc>::from(std::time::SystemTime::now()).timestamp()
}

/// The current time, in whole seconds since the Unix epoch, or `None` where
/// the system clock stands before the epoch and so gives no such count.
///
/// Two calls may differ, so the contract names no moment. What holds of every
/// reading is its range: it is the clock's signed count of seconds, so it
/// lies in the lower half of the 64-bit range and 24 hours can always be
/// added to it.
pub(crate) fn unix_now() -> (reading: Option<u64>)
    ensures
        reading matches Some(now) ==> now <= i64::MAX,
{
    let secs: i64 = utc_timestamp();
    if secs >= 0 {
        Some(secs as u64)
    } else {
        None
    }
}

} // verus!
