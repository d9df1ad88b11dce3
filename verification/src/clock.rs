//! The current day and moment, read from the system clock.

use crate::domain::entities::url::{Date, Timestamp};
use chrono::Datelike;
use vstd::prelude::*;

verus! {

/// The current day in UTC, from `chrono::Utc::now` and `DateTime::date_naive`.
/// Trusted: the clock counts from 1970, so the year is no earlier, and chrono
/// numbers months from 1 to 12 and days of the month from 1 to 31. Nothing is
/// claimed of which day it is: two calls may differ. `Utc::now` panics where
/// the system clock stands before 1970.
#[verifier::external_body]
pub(crate) fn today() -> (day: Date)
    ensures
        day.in_calendar(),
        day.year >= 1970,
{
    let date = chrono::Utc::now().date_naive();
    Date { year: date.year(), month: date.month(), day: date.day() }
}

/// The current moment in UTC, from `chrono::Utc::now`, as `DateTime::timestamp`
/// and `DateTime::timestamp_subsec_nanos` give it. Trusted: the clock counts
/// from 1970, so the seconds are not negative. Nothing is claimed of which
/// moment it is: two calls may differ. `Utc::now` panics where the system
/// clock stands before 1970.
#[verifier::external_body]
pub(crate) fn now() -> (moment: Timestamp)
    ensures
        moment.secs >= 0,
{
    let now = chrono::Utc::now();
    Timestamp { secs: now.timestamp(), nanos: now.timestamp_subsec_nanos() }
}

} // verus!
