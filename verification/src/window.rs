//! Shared timestamp and time-window helpers: the system clock, the
//! station's fixed civil-time offset, and the rolling date window the
//! fetcher queries — one day in the past through seven days ahead of now,
//! in the station's civil time.

use vstd::arithmetic::div_mod::{lemma_div_is_ordered, lemma_div_multiples_vanish};
use vstd::prelude::*;

verus! {

/// The station the service reports on: WEEKAPAUG POINT, BLOCK ISLAND
/// SOUND, RI.
pub const STATION: u32 = 8458022;

/// The station's fixed civil-time offset, west of UTC, in milliseconds.
pub const STATION_OFFSET_MILLIS: u64 = 4 * 60 * 60 * 1000;

pub const MILLIS_PER_DAY: u64 = 24 * 60 * 60 * 1000;

/// The earliest clock reading the window computation supports: one civil
/// day past the epoch at the station.
pub const MIN_WINDOW_CLOCK_MILLIS: u64 = STATION_OFFSET_MILLIS + MILLIS_PER_DAY;

/// The latest clock reading the window computation supports, keeping the
/// whole queried window inside the calendar years the date conversion
/// covers (through 9999).
pub const MAX_WINDOW_CLOCK_MILLIS: u64 = STATION_OFFSET_MILLIS + 2_932_889 * MILLIS_PER_DAY;

/// A calendar date in the proleptic Gregorian calendar.
#[derive(Clone, Copy, Debug, PartialEq, Eq, Structural)]
pub struct CivilDate {
    pub year: i64,
    pub month: u8,
    pub day: u8,
}

/// The calendar date of a day count since the Unix epoch (day 0 is
/// 1970-01-01), as (year, month, day).
pub uninterp spec fn civil_of_day(days: int) -> (int, int, int);

/// Relies on chrono::NaiveDate::from_epoch_days and its Datelike
/// accessors: the calendar date of a day number counted from 1970-01-01,
/// a function of the day count alone, defined for every day count in the
/// supported range, and always a valid Gregorian date. The year bounds
/// hold because day -719528 is 0000-01-01 and day 2932896 is 9999-12-31.
#[verifier::external_body]
pub(crate) fn civil_from_days(days: i64) -> (d: CivilDate)
    requires
        -719_528 <= days <= 2_932_896,
    ensures
        (d.year as int, d.month as int, d.day as int) == civil_of_day(days as int),
        0 <= d.year <= 9999,
        1 <= d.month <= 12,
        1 <= d.day <= crate::wire::days_in_month(d.year as int, d.month as int),
{
    let date = chrono::NaiveDate::from_epoch_days(days as i32).expect(
        "day count within the calendar range",
    );
    CivilDate {
        year: chrono::Datelike::year(&date) as i64,
        month: chrono::Datelike::month(&date) as u8,
        day: chrono::Datelike::day(&date) as u8,
    }
}

/// The day count since the Unix epoch of a calendar date: the inverse
/// companion of `civil_of_day`.
pub uninterp spec fn day_of_civil(year: int, month: int, day: int) -> int;

/// Relies on chrono::NaiveDate::from_ymd_opt and to_epoch_days: the
/// epoch-day count of a calendar date, a function of the date alone,
/// defined on every valid date of the supported years. The bounds hold
/// because 0000-01-01 is epoch day -719528 and 9999-12-31 is 2932896.
#[verifier::external_body]
pub(crate) fn days_from_civil(year: i64, month: u8, day: u8) -> (r: i64)
    requires
        0 <= year <= 9999,
        1 <= month <= 12,
        1 <= day <= crate::wire::days_in_month(year as int, month as int),
    ensures
        r == day_of_civil(year as int, month as int, day as int),
        -719_528 <= r <= 2_932_896,
{
    let date = chrono::NaiveDate::from_ymd_opt(year as i32, month as u32, day as u32).expect(
        "valid calendar date",
    );
    date.to_epoch_days() as i64
}

/// Relies on std::time::SystemTime: the system clock, as milliseconds
/// since the Unix epoch (zero when the clock reads earlier than the
/// epoch).
#[verifier::external_body]
pub fn time_now() -> u128 {
    match std::time::SystemTime::now().duration_since(std::time::UNIX_EPOCH) {
        Ok(d) => d.as_millis(),
        Err(_) => 0,
    }
}

/// The civil day at the station (days since the epoch) when the clock
/// reads `now_millis`.
pub open spec fn station_day_of(now_millis: int) -> int {
    (now_millis - STATION_OFFSET_MILLIS) / MILLIS_PER_DAY as int
}

/// The date window a refresh queries: the station-local civil dates one
/// day before and seven days after the day the clock reading falls on.
pub fn fetch_window(now_millis: u128) -> (w: (CivilDate, CivilDate))
    requires
        MIN_WINDOW_CLOCK_MILLIS <= now_millis <= MAX_WINDOW_CLOCK_MILLIS,
    ensures
        ({
            let day = station_day_of(now_millis as int);
            &&& (w.0.year as int, w.0.month as int, w.0.day as int) == civil_of_day(day - 1)
            &&& (w.1.year as int, w.1.month as int, w.1.day as int) == civil_of_day(day + 7)
        }),
{
    let shifted = now_millis - STATION_OFFSET_MILLIS as u128;
    proof {
        lemma_div_multiples_vanish(1, MILLIS_PER_DAY as int);
        lemma_div_multiples_vanish(2_932_889, MILLIS_PER_DAY as int);
        lemma_div_is_ordered(MILLIS_PER_DAY as int, shifted as int, MILLIS_PER_DAY as int);
        lemma_div_is_ordered(
            shifted as int,
            2_932_889 * MILLIS_PER_DAY as int,
            MILLIS_PER_DAY as int,
        );
    }
    let day = (shifted / (MILLIS_PER_DAY as u128)) as i64;
    assert(day == station_day_of(now_millis as int));
    assert(1 <= day <= 2_932_889);
    let begin = civil_from_days(day - 1);
    let end = civil_from_days(day + 7);
    (begin, end)
}

} // verus!
