//! Calendar dates of instants, as `chrono` works them out.

use vstd::prelude::*;

verus! {

/// The year, the month and the day of the month on which the instant
/// `seconds` seconds after the Unix epoch falls in UTC, as `chrono` gives
/// them; `None` where `chrono` cannot represent the instant.
pub uninterp spec fn utc_date_of(seconds: i64) -> Option<(i32, u32, u32)>;

/// Calls `chrono::DateTime::from_timestamp` on `seconds` and no nanoseconds,
/// and reads the year, month and day of the result through
/// `chrono::Datelike`. The contract claims only that the answer is a function
/// of `seconds`.
#[verifier::external_body]
pub(crate) fn utc_date(seconds: i64) -> (date: Option<(i32, u32, u32)>)
    ensures
        date == utc_date_of(seconds),
{
    match chrono::DateTime::from_timestamp(seconds, 0) {
        Some(t) => Some(
            (chrono::Datelike::year(&t), chrono::Datelike::month(&t), chrono::Datelike::day(&t)),
        ),
        None => None,
    }
}

} // verus!
