//! Epoch seconds as instants of the calendar.

use vstd::prelude::*;

verus! {

/// What `chrono::DateTime::<Utc>::from_timestamp(secs, 0)` makes of a count
/// of seconds from the Unix epoch, read back as seconds: `None` where the
/// calendar of chrono does not reach that far.
pub uninterp spec fn utc_timestamp(secs: i64) -> Option<i64>;

/// Calls `chrono::DateTime::from_timestamp` with no nanoseconds and reads
/// the instant back with `DateTime::timestamp`. Claimed of chrono: the
/// outcome depends on `secs` alone, and an instant that was made counts the
/// seconds it was made from (chrono documents the round trip).
#[verifier::external_body]
pub(crate) fn utc_seconds(secs: i64) -> (r: Option<i64>)
    ensures
        r == utc_timestamp(secs),
        r matches Some(t) ==> t == secs,
{
    chrono::DateTime::from_timestamp(secs, 0).map(|at| at.timestamp())
}

/// The block time of a record: the reported seconds where chrono's calendar
/// holds them, and unknown where nothing was reported or the calendar does
/// not reach.
pub open spec fn known_block_time(reported: Option<i64>) -> Option<i64> {
    match reported {
        Some(secs) => utc_timestamp(secs),
        None => None,
    }
}

/// Turns the reported epoch seconds into the block time of a record. No time
/// is made up: nothing reported gives nothing.
pub fn block_time_of(reported: Option<i64>) -> (r: Option<i64>)
    ensures
        r == known_block_time(reported),
        r matches Some(t) ==> reported == Some(t),
        reported is None ==> r is None,
{
    match reported {
        Some(secs) => utc_seconds(secs),
        None => None,
    }
}

} // verus!
