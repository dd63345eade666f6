//! Calendar dates in UTC, as chrono tells them.
use chrono::{Datelike, TimeZone, Utc};
use vstd::prelude::*;

verus! {

/// The UTC day an instant falls in: days since 1970-01-01, counted down for
/// instants before it. `nanos` is nanoseconds since 1970-01-01 00:00:00 UTC;
/// chrono counts every day as 86 400 seconds.
pub open spec fn utc_day(nanos: int) -> int {
    nanos / 86_400_000_000_000
}

/// The date (year, month, day) of the proleptic Gregorian calendar that is
/// `days` days after 1970-01-01.
pub open spec fn civil_from_days(days: int) -> (int, int, int) {
    let z = days + 719468;
    let era = z / 146097;
    let day_of_era = z - era * 146097;
    let year_of_era = (day_of_era - day_of_era / 1460 + day_of_era / 36524 - day_of_era / 146096)
        / 365;
    let day_of_year = day_of_era - (365 * year_of_era + year_of_era / 4 - year_of_era / 100);
    let shifted_month = (5 * day_of_year + 2) / 153;
    let day = day_of_year - (153 * shifted_month + 2) / 5 + 1;
    let month = if shifted_month < 10 {
        shifted_month + 3
    } else {
        shifted_month - 9
    };
    let year = year_of_era + era * 400;
    (if month <= 2 {
        year + 1
    } else {
        year
    }, month, day)
}

/// The calendar date in UTC of the instant `nanos` nanoseconds after
/// 1970-01-01 00:00:00 UTC.
pub open spec fn utc_date_of_nanos(nanos: int) -> (int, int, int) {
    civil_from_days(utc_day(nanos))
}

/// A date read from chrono as plain integers.
pub open spec fn date_of(date: (i32, u32, u32)) -> (int, int, int) {
    (date.0 as int, date.1 as int, date.2 as int)
}

/// Calls chrono's `Utc.timestamp_nanos(nanos)` and reads `year()`, `month()`
/// and `day()` of the result. chrono's source takes the day count
/// `nanos.div_euclid(86_400 * 10^9)` from 1970-01-01 and turns it into a
/// date of the proleptic Gregorian calendar; it documents month and day as
/// counted from 1.
#[verifier::external_body]
pub(crate) fn utc_date(nanos: i64) -> (r: (i32, u32, u32))
    ensures
        date_of(r) == utc_date_of_nanos(nanos as int),
        1 <= r.1 <= 12,
        1 <= r.2 <= 31,
{
    let instant = Utc.timestamp_nanos(nanos);
    (instant.year(), instant.month(), instant.day())
}

/// The number of days from 1970-01-01 to a date of the proleptic Gregorian
/// calendar: the inverse of `civil_from_days`.
pub open spec fn days_from_civil(date: (int, int, int)) -> int {
    let (y, m, d) = date;
    let year = if m <= 2 {
        y - 1
    } else {
        y
    };
    let era = year / 400;
    let year_of_era = year - era * 400;
    let shifted_month = if m > 2 {
        m - 3
    } else {
        m + 9
    };
    let day_of_year = (153 * shifted_month + 2) / 5 + d - 1;
    let day_of_era = year_of_era * 365 + year_of_era / 4 - year_of_era / 100 + day_of_year;
    era * 146097 + day_of_era - 719468
}

/// Counting the days back from the date of a day gives that day.
pub proof fn lemma_civil_round_trip(days: int)
    ensures
        days_from_civil(civil_from_days(days)) == days,
{
    let z = days + 719468;
    let era = z / 146097;
    let day_of_era = z - era * 146097;
    assert(0 <= day_of_era < 146097);
    let year_of_era = (day_of_era - day_of_era / 1460 + day_of_era / 36524 - day_of_era / 146096)
        / 365;
    assert(0 <= year_of_era <= 399);
    let year = year_of_era + era * 400;
    assert(year / 400 == era);
}

/// Law: two instants in one UTC day have one date.
pub proof fn lemma_same_day_same_date(a: int, b: int)
    requires
        utc_day(a) == utc_day(b),
    ensures
        utc_date_of_nanos(a) == utc_date_of_nanos(b),
{
}

/// Law: two instants with one UTC date lie in one UTC day.
pub proof fn lemma_same_date_same_day(a: int, b: int)
    requires
        utc_date_of_nanos(a) == utc_date_of_nanos(b),
    ensures
        utc_day(a) == utc_day(b),
{
    lemma_civil_round_trip(utc_day(a));
    lemma_civil_round_trip(utc_day(b));
}

} // verus!
