//! The upstream timestamp format. Each prediction carries its moment as
//! `"YYYY-MM-DD HH:MM"` in station-local civil time; this module decodes
//! one into the minute count the locator and the cache work on, and
//! encodes a minute count back into the same format.

use vstd::arithmetic::div_mod::{
    lemma_div_multiples_vanish_fancy, lemma_fundamental_div_mod, lemma_mod_multiples_vanish,
};
use vstd::prelude::*;

use crate::window::{civil_from_days, civil_of_day, day_of_civil, days_from_civil};

verus! {

/// The byte values of the ASCII characters the grammar uses.
pub const DIGIT_ZERO: u8 = 48;

pub const DIGIT_NINE: u8 = 57;

pub const DASH: u8 = 45;

pub const SPACE: u8 = 32;

pub const COLON: u8 = 58;

pub open spec fn is_digit(b: u8) -> bool {
    DIGIT_ZERO <= b <= DIGIT_NINE
}

pub open spec fn digit(b: u8) -> int {
    b - DIGIT_ZERO
}

/// Leap years of the proleptic Gregorian calendar.
pub open spec fn is_leap_year(year: int) -> bool {
    year % 4 == 0 && (year % 100 != 0 || year % 400 == 0)
}

/// How many days the month holds.
pub open spec fn days_in_month(year: int, month: int) -> int {
    if month == 2 {
        if is_leap_year(year) {
            29
        } else {
            28
        }
    } else if month == 4 || month == 6 || month == 9 || month == 11 {
        30
    } else {
        31
    }
}

pub open spec fn ts_year(s: Seq<u8>) -> int {
    digit(s[0]) * 1000 + digit(s[1]) * 100 + digit(s[2]) * 10 + digit(s[3])
}

pub open spec fn ts_month(s: Seq<u8>) -> int {
    digit(s[5]) * 10 + digit(s[6])
}

pub open spec fn ts_day(s: Seq<u8>) -> int {
    digit(s[8]) * 10 + digit(s[9])
}

pub open spec fn ts_hour(s: Seq<u8>) -> int {
    digit(s[11]) * 10 + digit(s[12])
}

pub open spec fn ts_minute(s: Seq<u8>) -> int {
    digit(s[14]) * 10 + digit(s[15])
}

/// The timestamp grammar: four year digits, a dash, two month digits, a
/// dash, two day digits, a space, two hour digits, a colon and two minute
/// digits, naming a time of day on a valid calendar date (the four digits
/// reach every year from 0000 through 9999).
pub open spec fn wire_timestamp_wf(s: Seq<u8>) -> bool {
    &&& s.len() == 16
    &&& is_digit(s[0]) && is_digit(s[1]) && is_digit(s[2]) && is_digit(s[3])
    &&& s[4] == DASH
    &&& is_digit(s[5]) && is_digit(s[6])
    &&& s[7] == DASH
    &&& is_digit(s[8]) && is_digit(s[9])
    &&& s[10] == SPACE
    &&& is_digit(s[11]) && is_digit(s[12])
    &&& s[13] == COLON
    &&& is_digit(s[14]) && is_digit(s[15])
    &&& 1 <= ts_month(s) <= 12
    &&& 1 <= ts_day(s) <= days_in_month(ts_year(s), ts_month(s))
    &&& ts_hour(s) <= 23
    &&& ts_minute(s) <= 59
}

/// The minute count a well-formed timestamp names: full days since the
/// epoch, then the time of day.
pub open spec fn minute_of_wf_timestamp(s: Seq<u8>) -> int {
    day_of_civil(ts_year(s), ts_month(s), ts_day(s)) * 1440 + ts_hour(s) * 60 + ts_minute(s)
}

fn read_digit(b: u8) -> (r: Option<u8>)
    ensures
        r is Some <==> is_digit(b),
        r is Some ==> r->Some_0 == digit(b),
{
    if DIGIT_ZERO <= b && b <= DIGIT_NINE {
        Some(b - DIGIT_ZERO)
    } else {
        None
    }
}

fn days_in_month_exec(year: i64, month: u8) -> (d: u8)
    requires
        year >= 0,
    ensures
        d == days_in_month(year as int, month as int),
{
    if month == 2 {
        if year % 4 == 0 && (year % 100 != 0 || year % 400 == 0) {
            29
        } else {
            28
        }
    } else if month == 4 || month == 6 || month == 9 || month == 11 {
        30
    } else {
        31
    }
}

/// Decodes one upstream timestamp into station-local minutes since the
/// epoch. Answers exactly when the bytes fit the grammar, and then with
/// the minute count the timestamp names.
pub fn minute_of_timestamp(s: &[u8]) -> (r: Option<i64>)
    ensures
        r is Some <==> wire_timestamp_wf(s@),
        r is Some ==> r->Some_0 == minute_of_wf_timestamp(s@),
{
    if s.len() != 16 {
        return None;
    }
    if !(s[4] == DASH && s[7] == DASH && s[10] == SPACE && s[13] == COLON) {
        return None;
    }
    let (y0, y1, y2, y3) = match (read_digit(s[0]), read_digit(s[1]), read_digit(s[2]), read_digit(
        s[3],
    )) {
        (Some(a), Some(b), Some(c), Some(d)) => (a, b, c, d),
        _ => {
            return None;
        }
    };
    let (m0, m1) = match (read_digit(s[5]), read_digit(s[6])) {
        (Some(a), Some(b)) => (a, b),
        _ => {
            return None;
        }
    };
    let (d0, d1) = match (read_digit(s[8]), read_digit(s[9])) {
        (Some(a), Some(b)) => (a, b),
        _ => {
            return None;
        }
    };
    let (h0, h1) = match (read_digit(s[11]), read_digit(s[12])) {
        (Some(a), Some(b)) => (a, b),
        _ => {
            return None;
        }
    };
    let (n0, n1) = match (read_digit(s[14]), read_digit(s[15])) {
        (Some(a), Some(b)) => (a, b),
        _ => {
            return None;
        }
    };
    let year: i64 = y0 as i64 * 1000 + y1 as i64 * 100 + y2 as i64 * 10 + y3 as i64;
    let month: u8 = m0 * 10 + m1;
    let day: u8 = d0 * 10 + d1;
    let hour: u8 = h0 * 10 + h1;
    let minute: u8 = n0 * 10 + n1;
    if !(1 <= month && month <= 12) {
        return None;
    }
    if !(1 <= day && day <= days_in_month_exec(year, month)) {
        return None;
    }
    if !(hour <= 23 && minute <= 59) {
        return None;
    }
    let epoch_day = days_from_civil(year, month, day);
    Some(epoch_day * 1440 + hour as i64 * 60 + minute as i64)
}

/// The smallest minute count the format can name: 0000-01-01 00:00
/// (epoch day -719528).
pub const MIN_WIRE_MINUTE: i64 = -719_528 * 1440;

/// The largest minute count the format can name: 9999-12-31 23:59
/// (epoch day 2932896).
pub const MAX_WIRE_MINUTE: i64 = 2_932_896 * 1440 + 1439;

/// The epoch day a minute count falls on.
pub open spec fn day_of_wire_minute(minute: int) -> int {
    minute / 1440
}

/// The minute within its day.
pub open spec fn minute_in_day(minute: int) -> int {
    minute % 1440
}

fn digit_byte(v: u8) -> (b: u8)
    requires
        v <= 9,
    ensures
        is_digit(b),
        digit(b) == v,
{
    DIGIT_ZERO + v
}

/// Encodes a station-local minute count in the upstream timestamp format:
/// the calendar date of the epoch day it falls on, then the time of day.
pub fn timestamp_of_minute(minute: i64) -> (r: Vec<u8>)
    requires
        MIN_WIRE_MINUTE <= minute <= MAX_WIRE_MINUTE,
    ensures
        wire_timestamp_wf(r@),
        (ts_year(r@), ts_month(r@), ts_day(r@)) == civil_of_day(day_of_wire_minute(minute as int)),
        ts_hour(r@) == minute_in_day(minute as int) / 60,
        ts_minute(r@) == minute_in_day(minute as int) % 60,
{
    let shifted: i64 = minute - MIN_WIRE_MINUTE;
    let day0: i64 = shifted / 1440;
    let rem: i64 = shifted % 1440;
    proof {
        lemma_fundamental_div_mod(shifted as int, 1440);
        assert(minute as int == 1440 * (day0 - 719_528) + rem);
        lemma_div_multiples_vanish_fancy(day0 - 719_528, rem as int, 1440);
        lemma_mod_multiples_vanish(day0 - 719_528, rem as int, 1440);
        assert(day_of_wire_minute(minute as int) == day0 - 719_528);
        assert(minute_in_day(minute as int) == rem);
        lemma_fundamental_div_mod(rem as int, 60);
    }
    let day: i64 = day0 - 719_528;
    let date = civil_from_days(day);
    let hour: u8 = (rem / 60) as u8;
    let min: u8 = (rem % 60) as u8;

    let y: i64 = date.year;
    proof {
        lemma_fundamental_div_mod(y as int, 1000);
    }
    let ya: u8 = (y / 1000) as u8;
    let yr: i64 = y % 1000;
    proof {
        lemma_fundamental_div_mod(yr as int, 100);
    }
    let yb: u8 = (yr / 100) as u8;
    let yr2: i64 = yr % 100;
    proof {
        lemma_fundamental_div_mod(yr2 as int, 10);
    }
    let yc: u8 = (yr2 / 10) as u8;
    let yd: u8 = (yr2 % 10) as u8;

    let m0: u8 = date.month / 10;
    let m1: u8 = date.month % 10;
    let d0: u8 = date.day / 10;
    let d1: u8 = date.day % 10;
    let h0: u8 = hour / 10;
    let h1: u8 = hour % 10;
    let q0: u8 = min / 10;
    let q1: u8 = min % 10;

    let mut out: Vec<u8> = Vec::new();
    out.push(digit_byte(ya));
    out.push(digit_byte(yb));
    out.push(digit_byte(yc));
    out.push(digit_byte(yd));
    out.push(DASH);
    out.push(digit_byte(m0));
    out.push(digit_byte(m1));
    out.push(DASH);
    out.push(digit_byte(d0));
    out.push(digit_byte(d1));
    out.push(SPACE);
    out.push(digit_byte(h0));
    out.push(digit_byte(h1));
    out.push(COLON);
    out.push(digit_byte(q0));
    out.push(digit_byte(q1));

    assert(ts_year(out@) == y);
    assert(ts_month(out@) == date.month);
    assert(ts_day(out@) == date.day);
    assert(ts_hour(out@) == hour);
    assert(ts_minute(out@) == min);
    out
}

} // verus!
