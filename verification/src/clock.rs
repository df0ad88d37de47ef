//! Calendar instants in UTC and what they are in a fixed-offset time zone,
//! worked out by chrono.

use vstd::prelude::*;
use chrono::{Datelike, FixedOffset, NaiveDate, TimeZone, Timelike};

verus! {

/// An instant in UTC on the proleptic Gregorian calendar, to the second.
#[derive(Debug, Clone, Copy, PartialEq, Eq, Structural)]
pub struct UtcDateTime {
    pub year: i32,
    pub month: u32,
    pub day: u32,
    pub hour: u32,
    pub minute: u32,
    pub second: u32,
}

/// A leap year of the proleptic Gregorian calendar.
pub open spec fn is_leap_year(y: int) -> bool {
    y % 4 == 0 && (y % 100 != 0 || y % 400 == 0)
}

/// The number of days of month `m` (1 to 12) of year `y`.
pub open spec fn days_in_month(y: int, m: int) -> int {
    if m == 2 {
        if is_leap_year(y) { 29 } else { 28 }
    } else if m == 4 || m == 6 || m == 9 || m == 11 {
        30
    } else {
        31
    }
}

impl UtcDateTime {
    /// A date and time that exists, in the years that chrono's `NaiveDate`
    /// covers (-262143 to 262142).
    pub open spec fn valid(self) -> bool {
        &&& -262143 <= self.year <= 262142
        &&& 1 <= self.month <= 12
        &&& 1 <= self.day <= days_in_month(self.year as int, self.month as int)
        &&& self.hour < 24
        &&& self.minute < 60
        &&& self.second < 60
    }

    /// The instant with these fields, when they make a valid one.
    pub fn new(year: i32, month: u32, day: u32, hour: u32, minute: u32, second: u32) -> (r: Option<
        UtcDateTime,
    >)
        ensures
            match r {
                Some(t) => t.valid() && t == (UtcDateTime { year, month, day, hour, minute, second }),
                None => !(UtcDateTime { year, month, day, hour, minute, second }).valid(),
            },
    {
        if year < -262143 || year > 262142 || month < 1 || month > 12 || hour >= 24 || minute >= 60
            || second >= 60 {
            return None;
        }
        let y: i64 = year as i64 + 400000;
        assert(y % 4 == year % 4 && y % 100 == year % 100 && y % 400 == year % 400) by {
            assert(y == year + 400 * 1000);
        }
        let leap = y % 4 == 0 && (y % 100 != 0 || y % 400 == 0);
        let days: u32 = if month == 2 {
            if leap { 29 } else { 28 }
        } else if month == 4 || month == 6 || month == 9 || month == 11 {
            30
        } else {
            31
        };
        if day < 1 || day > days {
            return None;
        }
        Some(UtcDateTime { year, month, day, hour, minute, second })
    }
}

/// The second of the local day at the UTC instant `now` in the zone
/// `offset_secs` east of UTC: the UTC second of the day plus the offset,
/// wrapped into one day.
pub open spec fn local_second_of_day(now: UtcDateTime, offset_secs: int) -> int {
    (now.hour * 3600 + now.minute * 60 + now.second + offset_secs) % 86400
}

/// The local hour at `now` in the zone `offset_secs` east of UTC.
pub open spec fn local_hour(now: UtcDateTime, offset_secs: int) -> int {
    local_second_of_day(now, offset_secs) / 3600
}

/// The local minute at `now` in the zone `offset_secs` east of UTC.
pub open spec fn local_minute(now: UtcDateTime, offset_secs: int) -> int {
    (local_second_of_day(now, offset_secs) / 60) % 60
}

/// Whether the local date at `now` in the zone `offset_secs` east of UTC
/// is the day before (-1), the same day as (0) or the day after (1) the
/// UTC date.
pub open spec fn local_day_shift(now: UtcDateTime, offset_secs: int) -> int {
    let t = now.hour * 3600 + now.minute * 60 + now.second + offset_secs;
    if t < 0 {
        -1
    } else if t >= 86400 {
        1
    } else {
        0
    }
}

/// The local date (year, month, day) at `now` in the zone `offset_secs`
/// east of UTC, for an offset of less than a day: the UTC date moved by
/// `local_day_shift` days.
pub open spec fn local_date(now: UtcDateTime, offset_secs: int) -> (int, int, int) {
    let (y, m, d) = (now.year as int, now.month as int, now.day as int);
    let shift = local_day_shift(now, offset_secs);
    if shift < 0 {
        if d > 1 {
            (y, m, d - 1)
        } else if m > 1 {
            (y, m - 1, days_in_month(y, m - 1))
        } else {
            (y - 1, 12, 31)
        }
    } else if shift > 0 {
        if d < days_in_month(y, m) {
            (y, m, d + 1)
        } else if m < 12 {
            (y, m + 1, 1)
        } else {
            (y + 1, 1, 1)
        }
    } else {
        (y, m, d)
    }
}

/// The days of year `y` before month `m` (1 to 12).
pub open spec fn days_before_month(y: int, m: int) -> int {
    let before: int = if m <= 1 { 0 }
        else if m == 2 { 31 }
        else if m == 3 { 59 }
        else if m == 4 { 90 }
        else if m == 5 { 120 }
        else if m == 6 { 151 }
        else if m == 7 { 181 }
        else if m == 8 { 212 }
        else if m == 9 { 243 }
        else if m == 10 { 273 }
        else if m == 11 { 304 }
        else { 334 };
    before + if m > 2 && is_leap_year(y) { 1int } else { 0int }
}

/// The day of the week of 1 January of year `y`, from 0 for Monday to 6
/// for Sunday (Gauss's rule, which the calendar's 400-year cycle of whole
/// weeks carries to every year).
pub open spec fn jan1_weekday(y: int) -> int {
    let a = y - 1;
    (5 * (a % 4) + 4 * (a % 100) + 6 * (a % 400)) % 7
}

/// The number of ISO weeks of year `y`: 53 when it starts on a Thursday,
/// or on a Wednesday in a leap year; else 52.
pub open spec fn iso_weeks_in_year(y: int) -> int {
    if jan1_weekday(y) == 3 || (jan1_weekday(y) == 2 && is_leap_year(y)) {
        53
    } else {
        52
    }
}

/// The ISO week number of the date `year-month-day` (chrono's
/// `Datelike::iso_week().week()`): the week, from Monday to Sunday, that
/// holds it, counted from the week that holds the year's first Thursday; a
/// day before that week is in the previous year's last week, and a day
/// after the year's last week is in week 1 of the next year.
pub open spec fn iso_week_number(year: int, month: int, day: int) -> int {
    let ordinal = days_before_month(year, month) + day;
    let weekday = (jan1_weekday(year) + ordinal - 1) % 7;
    let raw = (ordinal - weekday + 9) / 7;
    if raw < 1 {
        iso_weeks_in_year(year - 1)
    } else if raw > iso_weeks_in_year(year) {
        1
    } else {
        raw
    }
}

/// Whether `secs` is an offset that chrono's `FixedOffset::east_opt`
/// accepts: less than a day either way.
pub fn offset_accepted(secs: i32) -> (r: bool)
    ensures
        r == (-86400 < secs < 86400),
{
    -86400 < secs && secs < 86400
}

/// The local hour, minute, day of month and ISO week number of `now` in the
/// zone `offset_secs` east of UTC, by chrono's `TimeZone::from_utc_datetime`
/// on `FixedOffset`, which adds the offset to the UTC date and time: the
/// time of day wraps into one day and the date moves by that day
/// (`local_date`); the week is the ISO week number of that date
/// (`iso_week_number`).
#[verifier::external_body]
pub(crate) fn local_fields(now: &UtcDateTime, offset_secs: i32) -> (r: (u32, u32, u32, u32))
    requires
        now.valid(),
        -86400 < offset_secs < 86400,
    ensures
        r.0 as int == local_hour(*now, offset_secs as int),
        r.1 as int == local_minute(*now, offset_secs as int),
        r.2 as int == local_date(*now, offset_secs as int).2,
        r.3 as int == iso_week_number(
            local_date(*now, offset_secs as int).0,
            local_date(*now, offset_secs as int).1,
            local_date(*now, offset_secs as int).2,
        ),
        1 <= r.3 <= 53,
{
    let date = NaiveDate::from_ymd_opt(now.year, now.month, now.day).unwrap();
    let utc = date.and_hms_opt(now.hour, now.minute, now.second).unwrap();
    let local = FixedOffset::east_opt(offset_secs).unwrap().from_utc_datetime(&utc);
    (local.hour(), local.minute(), local.day(), local.iso_week().week())
}

/// The ISO week number of the date of `now` (`iso_week_number`), by
/// chrono's `Datelike::iso_week` on `NaiveDate`.
#[verifier::external_body]
pub(crate) fn iso_week(now: &UtcDateTime) -> (r: u32)
    requires
        now.valid(),
    ensures
        r as int == iso_week_number(now.year as int, now.month as int, now.day as int),
        1 <= r <= 53,
{
    NaiveDate::from_ymd_opt(now.year, now.month, now.day).unwrap().iso_week().week()
}

/// Whether the local date is behind (-1), level with (0) or ahead of (1)
/// the UTC date: first the sign of the difference of the ISO week numbers;
/// then -1 when both the local hour and the local day of month are below
/// UTC's, and 1 when both are above.
pub open spec fn day_difference_of(
    now_week: u32,
    local_week: u32,
    now_hour: u32,
    local_hour: u32,
    now_day: u32,
    local_day: u32,
) -> i32 {
    if local_hour > now_hour && local_day > now_day {
        1
    } else if local_hour < now_hour && local_day < now_day {
        -1i32
    } else if local_week > now_week {
        1
    } else if local_week < now_week {
        -1i32
    } else {
        0
    }
}

/// `day_difference_of`, worked out.
pub fn day_difference(
    now_week: u32,
    local_week: u32,
    now_hour: u32,
    local_hour: u32,
    now_day: u32,
    local_day: u32,
) -> (r: i32)
    requires
        now_week <= 53,
        local_week <= 53,
    ensures
        r == day_difference_of(now_week, local_week, now_hour, local_hour, now_day, local_day),
{
    let diff = local_week as i32 - now_week as i32;
    let mut d: i32 = if diff > 0 { 1 } else if diff < 0 { -1 } else { 0 };
    if local_hour < now_hour && local_day < now_day {
        d = -1;
    }
    if local_hour > now_hour && local_day > now_day {
        d = 1;
    }
    d
}

/// What the day offset means: it is -1, 0 or 1; it says "the day before"
/// only when the local day of month is earlier or the local ISO week is
/// earlier, and "the day after" only when the local day of month is later
/// or the local ISO week is later; on the same day of the same week it is
/// 0, whatever the hours.
pub proof fn lemma_day_difference_meaning(
    now_week: u32,
    local_week: u32,
    now_hour: u32,
    local_hour: u32,
    now_day: u32,
    local_day: u32,
)
    ensures
        ({
            let r = day_difference_of(now_week, local_week, now_hour, local_hour, now_day, local_day);
            &&& -1 <= r <= 1
            &&& r == -1 ==> local_day < now_day || local_week < now_week
            &&& r == 1 ==> local_day > now_day || local_week > now_week
            &&& (local_day == now_day && local_week == now_week) ==> r == 0
            &&& (local_hour < now_hour && local_day < now_day) ==> r == -1
            &&& (local_hour > now_hour && local_day > now_day) ==> r == 1
            &&& (!(local_hour < now_hour && local_day < now_day) && !(local_hour > now_hour
                && local_day > now_day)) ==> (r == -1 <==> local_week < now_week) && (r == 1
                <==> local_week > now_week)
        }),
{
}

/// Where the local date is the UTC date, the city is shown on the same
/// day: the day offset worked out for it is 0.
pub proof fn lemma_same_date_no_offset(now: UtcDateTime, offset_secs: int)
    requires
        local_date(now, offset_secs) == (now.year as int, now.month as int, now.day as int),
    ensures
        day_difference_of(
            iso_week_number(now.year as int, now.month as int, now.day as int) as u32,
            iso_week_number(
                local_date(now, offset_secs).0,
                local_date(now, offset_secs).1,
                local_date(now, offset_secs).2,
            ) as u32,
            now.hour,
            local_hour(now, offset_secs) as u32,
            now.day,
            local_date(now, offset_secs).2 as u32,
        ) == 0,
{
}

/// At a valid instant and an offset of less than a day, the local time of
/// day is a time of day, the local date is a valid date at most one day
/// from the UTC date, and it is the UTC date when the offset does not
/// carry the time of day past midnight either way.
pub proof fn lemma_local_date_valid(now: UtcDateTime, offset_secs: int)
    requires
        now.valid(),
        -86400 < offset_secs < 86400,
    ensures
        0 <= local_second_of_day(now, offset_secs) < 86400,
        0 <= local_hour(now, offset_secs) < 24,
        0 <= local_minute(now, offset_secs) < 60,
        -1 <= local_day_shift(now, offset_secs) <= 1,
        1 <= local_date(now, offset_secs).1 <= 12,
        1 <= local_date(now, offset_secs).2 <= days_in_month(
            local_date(now, offset_secs).0,
            local_date(now, offset_secs).1,
        ),
        local_day_shift(now, offset_secs) == 0 ==> local_date(now, offset_secs) == (
            now.year as int,
            now.month as int,
            now.day as int,
        ),
        (0 <= now.hour * 3600 + now.minute * 60 + now.second + offset_secs < 86400) ==> local_day_shift(
            now,
            offset_secs,
        ) == 0,
{
    let sod = local_second_of_day(now, offset_secs);
    assert(0 <= sod < 86400);
    assert(sod / 3600 < 24) by (nonlinear_arith)
        requires
            0 <= sod < 86400,
    ;
}

} // verus!
