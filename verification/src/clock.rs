//! Points in time, written as dates of the Gregorian calendar in UTC.

use vstd::prelude::*;

use crate::error::outcome;
use crate::text::{padded_int_string, padded_int_text};

verus! {

/// The days of four hundred years.
pub const CYCLE_DAYS: u64 = 146097;

/// The seconds of a day.
pub const DAY_SECONDS: u64 = 86400;

/// Whether a year has a leap day.
pub open spec fn is_leap_year(year: int) -> bool {
    year % 4 == 0 && (year % 100 != 0 || year % 400 == 0)
}

/// The days of a month; months count from one.
pub open spec fn month_days(year: int, month: int) -> int {
    if month == 2 {
        if is_leap_year(year) {
            29
        } else {
            28
        }
    } else if month == 4 || month == 6 || month == 9 || month == 11 {
        30
    } else {
        31
    }
}

/// The year, the month and the day that lie a number of days behind the first day of a month.
pub open spec fn date_from(year: int, month: int, days: int) -> (int, int, int)
    decreases days,
{
    let length = month_days(year, month);
    if days < length {
        (year, month, days + 1)
    } else if month >= 12 {
        date_from(year + 1, 1, days - length)
    } else {
        date_from(year, month + 1, days - length)
    }
}

/// The date that lies a number of days behind the first of January 1970. Every four hundred years
/// have the same months.
pub open spec fn date_of(days: int) -> (int, int, int) {
    date_from(1970 + 400 * (days / CYCLE_DAYS as int), 1, days % CYCLE_DAYS as int)
}

/// A point in time, given in seconds since the first of January 1970, with `separator` between the
/// hours, the minutes and the seconds.
pub open spec fn time_text(seconds: int, separator: Seq<char>) -> Seq<char> {
    let (year, month, day) = date_of(seconds / DAY_SECONDS as int);
    let rest = seconds % DAY_SECONDS as int;
    padded_int_text(year, 4) + "-"@ + padded_int_text(month, 2) + "-"@ + padded_int_text(day, 2)
        + "T"@ + padded_int_text(rest / 3600, 2) + separator + padded_int_text(rest / 60 % 60, 2)
        + separator + padded_int_text(rest % 60, 2) + "Z"@
}

fn days_of_month(year: u64, month: u64) -> (days: u64)
    ensures
        days == month_days(year as int, month as int),
{
    if month == 2 {
        if year % 4 == 0 && (year % 100 != 0 || year % 400 == 0) {
            29
        } else {
            28
        }
    } else if month == 4 || month == 6 || month == 9 || month == 11 {
        30
    } else {
        31
    }
}

fn find_date(days: u64) -> (date: (u64, u64, u64))
    requires
        days <= u64::MAX / DAY_SECONDS,
    ensures
        (date.0 as int, date.1 as int, date.2 as int) == date_of(days as int),
        date.0 <= 1970 + days,
        date.1 <= 12,
        date.2 <= 31,
{
    let mut year: u64 = 1970 + 400 * (days / CYCLE_DAYS);
    let mut month: u64 = 1;
    let mut left: u64 = days % CYCLE_DAYS;
    while left >= days_of_month(year, month)
        invariant
            days <= u64::MAX / DAY_SECONDS,
            year + left <= 1970 + days,
            1 <= month <= 12,
            date_from(year as int, month as int, left as int) == date_of(days as int),
        decreases left,
    {
        left = left - days_of_month(year, month);
        if month == 12 {
            year = year + 1;
            month = 1;
        } else {
            month = month + 1;
        }
    }
    (year, month, left + 1)
}

/// Writes a point in time.
pub fn time_string(seconds: u64, separator: &str) -> (text: String)
    ensures
        text@ == time_text(seconds as int, separator@),
{
    let (year, month, day) = find_date(seconds / DAY_SECONDS);
    let rest: u64 = seconds % DAY_SECONDS;
    let text = padded_int_string(year as i64, 4).concat("-").concat(
        padded_int_string(month as i64, 2).as_str(),
    ).concat("-").concat(padded_int_string(day as i64, 2).as_str()).concat("T").concat(
        padded_int_string((rest / 3600) as i64, 2).as_str(),
    ).concat(separator).concat(padded_int_string((rest / 60 % 60) as i64, 2).as_str()).concat(
        separator,
    ).concat(padded_int_string((rest % 60) as i64, 2).as_str()).concat("Z");
    text
}

/// The time as a record holds it; a clock before the epoch gives no time.
pub fn timestamp(seconds: Option<u64>) -> (result: Result<String, String>)
    ensures
        outcome(result) == (match seconds {
            Some(time) => Ok::<Seq<char>, Seq<char>>(time_text(time as int, ":"@)),
            None => Err::<Seq<char>, Seq<char>>("system clock is before UNIX_EPOCH"@),
        }),
{
    match seconds {
        Some(time) => Ok(time_string(time, ":")),
        None => Err("system clock is before UNIX_EPOCH".to_owned()),
    }
}

/// The identifier of a new run: the time, fit for a file name, and the identifier of its first item.
pub fn new_run_id(seconds: Option<u64>, first_item_id: &str) -> (result: Result<String, String>)
    ensures
        outcome(result) == (match seconds {
            Some(time) => Ok::<Seq<char>, Seq<char>>(
                time_text(time as int, "-"@) + "-"@ + first_item_id@,
            ),
            None => Err::<Seq<char>, Seq<char>>("system clock is before UNIX_EPOCH"@),
        }),
{
    match seconds {
        Some(time) => Ok(time_string(time, "-").concat("-").concat(first_item_id)),
        None => Err("system clock is before UNIX_EPOCH".to_owned()),
    }
}

/// How many years up to a year have a leap day, counted from the year one.
pub open spec fn leap_years(year: int) -> int {
    year / 4 - year / 100 + year / 400
}

/// The days from the first of January 1970 to the first of January of a year.
pub open spec fn days_before_year(year: int) -> int {
    365 * (year - 1970) + leap_years(year - 1) - leap_years(1969)
}

/// The days of a year before a month.
pub open spec fn days_before_month(year: int, month: int) -> int
    decreases month,
{
    if month <= 1 {
        0
    } else {
        days_before_month(year, month - 1) + month_days(year, month - 1)
    }
}

proof fn lemma_next_leap_year(year: int)
    ensures
        leap_years(year) == leap_years(year - 1) + (if is_leap_year(year) {
            1int
        } else {
            0
        }),
{
    let (q, c, f) = (year / 4, year / 100, year / 400);
    let (q1, c1, f1) = ((year - 1) / 4, (year - 1) / 100, (year - 1) / 400);
    assert(q == q1 + (if year % 4 == 0 {
        1int
    } else {
        0
    }));
    assert(c == c1 + (if year % 100 == 0 {
        1int
    } else {
        0
    }));
    assert(f == f1 + (if year % 400 == 0 {
        1int
    } else {
        0
    }));
    assert(year % 100 == 0 ==> year % 4 == 0);
    assert(year % 400 == 0 ==> year % 100 == 0);
}

proof fn lemma_next_year(year: int)
    ensures
        days_before_year(year + 1) == days_before_year(year) + days_before_month(year, 12)
            + month_days(year, 12),
{
    lemma_next_leap_year(year);
    let leap = month_days(year, 2);
    assert(days_before_month(year, 1) == 0);
    assert(days_before_month(year, 2) == 31);
    assert(days_before_month(year, 3) == 31 + leap);
    assert(days_before_month(year, 4) == 62 + leap);
    assert(days_before_month(year, 5) == 92 + leap);
    assert(days_before_month(year, 6) == 123 + leap);
    assert(days_before_month(year, 7) == 153 + leap);
    assert(days_before_month(year, 8) == 184 + leap);
    assert(days_before_month(year, 9) == 215 + leap);
    assert(days_before_month(year, 10) == 245 + leap);
    assert(days_before_month(year, 11) == 276 + leap);
    assert(days_before_month(year, 12) == 306 + leap);
}

proof fn lemma_date_from(year: int, month: int, days: int)
    requires
        1 <= month <= 12,
        0 <= days,
    ensures
        ({
            let (y, m, d) = date_from(year, month, days);
            &&& year <= y
            &&& 1 <= m <= 12
            &&& 1 <= d <= month_days(y, m)
            &&& days_before_year(y) + days_before_month(y, m) + d - 1 == days_before_year(year)
                + days_before_month(year, month) + days
        }),
    decreases days,
{
    let length = month_days(year, month);
    if days >= length {
        if month == 12 {
            lemma_next_year(year);
            lemma_date_from(year + 1, 1, days - length);
        } else {
            lemma_date_from(year, month + 1, days - length);
        }
    }
}

/// A date is one of the calendar, and lies as many days behind the first of January 1970 as it was
/// made from.
pub proof fn dates_count_their_days(days: int)
    requires
        0 <= days,
    ensures
        ({
            let (year, month, day) = date_of(days);
            &&& 1970 <= year
            &&& 1 <= month <= 12
            &&& 1 <= day <= month_days(year, month)
            &&& days_before_year(year) + days_before_month(year, month) + day - 1 == days
        }),
{
    let cycle = days / CYCLE_DAYS as int;
    assert(days_before_year(1970 + 400 * cycle) == CYCLE_DAYS * cycle);
    lemma_date_from(1970 + 400 * cycle, 1, days % CYCLE_DAYS as int);
}

/// The months have the lengths of the Gregorian calendar.
pub proof fn months_have_their_lengths(year: int)
    ensures
        is_leap_year(year) <==> year % 400 == 0 || (year % 4 == 0 && year % 100 != 0),
        month_days(year, 1) == 31,
        month_days(year, 2) == (if is_leap_year(year) {
            29int
        } else {
            28
        }),
        month_days(year, 3) == 31,
        month_days(year, 4) == 30,
        month_days(year, 5) == 31,
        month_days(year, 6) == 30,
        month_days(year, 7) == 31,
        month_days(year, 8) == 31,
        month_days(year, 9) == 30,
        month_days(year, 10) == 31,
        month_days(year, 11) == 30,
        month_days(year, 12) == 31,
{
}

/// A point in time is written as its date, and its hour, minute and second of that day.
pub proof fn times_are_written_with_their_date(
    days: int,
    hour: int,
    minute: int,
    second: int,
    separator: Seq<char>,
)
    requires
        0 <= days,
        0 <= hour < 24,
        0 <= minute < 60,
        0 <= second < 60,
    ensures
        ({
            let (year, month, day) = date_of(days);
            time_text(days * 86400 + hour * 3600 + minute * 60 + second, separator)
                == padded_int_text(year, 4) + "-"@ + padded_int_text(month, 2) + "-"@
                + padded_int_text(day, 2) + "T"@ + padded_int_text(hour, 2) + separator
                + padded_int_text(minute, 2) + separator + padded_int_text(second, 2) + "Z"@
        }),
{
    let all = days * 86400 + hour * 3600 + minute * 60 + second;
    let rest = hour * 3600 + minute * 60 + second;
    assert(all / 86400 == days && all % 86400 == rest);
    assert(rest / 3600 == hour);
    assert(rest / 60 == hour * 60 + minute);
    assert(rest / 60 % 60 == minute);
    assert(rest % 60 == second);
}

} // verus!
