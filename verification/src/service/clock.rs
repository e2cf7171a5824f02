//! The wall clock, read in whole seconds.

use vstd::prelude::*;

verus! {

/// `std::time::SystemTime::now`, turned into a `chrono::DateTime<Utc>` by
/// chrono's `From<SystemTime>`, then `DateTime::timestamp`: the seconds
/// between 1970-01-01 00:00:00 UTC and the time on the machine's clock,
/// negative where the clock reads a time before that. The conversion covers
/// every time from the year -262143 to the year 262142. Nothing is claimed of
/// the number: two reads may differ, and a clock may be set back.
#[verifier::external_body]
pub(crate) fn unix_now() -> i64 {
    chrono::DateTime::<chrono::Utc>::from(std::time::SystemTime::now()).timestamp()
}

} // verus!
