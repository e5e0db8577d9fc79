//! Calendar timestamps and their conversion from seconds since the epoch.

use crate::calendar::{
    is_leap, is_leap_year, lemma_days_before_table, lemma_month_descent_meaning,
    lemma_year_descent_meaning, lemma_year_descent_reach, lemma_year_split_unique,
    month_descent, month_from_seconds, seconds_before_month, seconds_in_year, seconds_in_years,
    year_descent, year_from_seconds, Month, EPOCH_YEAR, SECONDS_PER_DAY, SECONDS_PER_HOUR,
    SECONDS_PER_MINUTE,
};
use vstd::prelude::*;

verus! {

/// A date and time of day in UTC, made fresh by each conversion.
#[derive(Clone, Copy, Debug, PartialEq, Eq, Structural)]
pub struct CalendarTimestamp {
    pub year: i64,
    /// 1 for January to 12 for December.
    pub month: u8,
    /// Day of the month, from 1.
    pub day: u8,
    pub hour: u8,
    pub minute: u8,
    pub second: u8,
}

impl CalendarTimestamp {
    /// The fields name a day that the calendar has and a time of that day.
    pub open spec fn wf(self) -> bool {
        &&& 1 <= self.month <= 12
        &&& 1 <= self.day <= Month::of_number(self.month as int).days(is_leap(self.year as int))
        &&& self.hour < 24
        &&& self.minute < 60
        &&& self.second < 60
    }

    /// Seconds from the start of the timestamp's year to the timestamp.
    pub open spec fn seconds_into_year(self) -> int {
        seconds_before_month(Month::of_number(self.month as int), is_leap(self.year as int)) + (
        self.day - 1) * 86_400 + self.hour * 3_600 + self.minute * 60 + self.second
    }

    /// Seconds from the start of 1970 to the timestamp.
    pub open spec fn epoch_seconds(self) -> int {
        seconds_in_years(1970, self.year as int) + self.seconds_into_year()
    }
}

/// A count of seconds with the negative counts taken as zero.
pub open spec fn clamp_seconds(seconds: int) -> int {
    if seconds < 0 {
        0
    } else {
        seconds
    }
}

/// The timestamp of the second that starts `seconds` seconds after the
/// start of 1970: the year and month the two walks reach, the day counted
/// from 1, and the time of day.
pub open spec fn civil(seconds: int) -> CalendarTimestamp {
    let (year, in_year) = year_descent(seconds, 1970);
    let (month, in_month) = month_descent(in_year, is_leap(year), Month::January);
    let in_day = in_month % 86_400;
    CalendarTimestamp {
        year: year as i64,
        month: month.number() as u8,
        day: (in_month / 86_400 + 1) as u8,
        hour: (in_day / 3_600) as u8,
        minute: ((in_day / 60) % 60) as u8,
        second: (in_day % 60) as u8,
    }
}

/// Converts seconds since the epoch to a calendar timestamp. A negative count
/// is taken as zero.
pub fn civil_from_epoch(epoch_seconds: i64) -> (ts: CalendarTimestamp)
    ensures
        ts == civil(clamp_seconds(epoch_seconds as int)),
        ts.wf(),
        ts.year >= 1970,
        ts.epoch_seconds() == clamp_seconds(epoch_seconds as int),
{
    let seconds: i64 = if epoch_seconds < 0 {
        0
    } else {
        epoch_seconds
    };
    proof {
        lemma_year_descent_reach(seconds as int, 1970);
    }
    let (year, in_year) = year_from_seconds(seconds, EPOCH_YEAR);
    let leap = is_leap_year(year);
    proof {
        lemma_days_before_table(leap);
    }
    let (month, in_month) = month_from_seconds(in_year, leap, Month::January);
    let day: i64 = in_month / SECONDS_PER_DAY + 1;
    let in_day: i64 = in_month % SECONDS_PER_DAY;
    let hour: i64 = in_day / SECONDS_PER_HOUR;
    let minute: i64 = (in_day / SECONDS_PER_MINUTE) % 60;
    let second: i64 = in_day % 60;
    CalendarTimestamp {
        year,
        month: month as u8,
        day: day as u8,
        hour: hour as u8,
        minute: minute as u8,
        second: second as u8,
    }
}

/// Every count of seconds that `i64` holds has a timestamp that the calendar
/// has, and that timestamp stands for the count it was made from.
pub proof fn lemma_civil_round_trip(seconds: int)
    requires
        0 <= seconds <= i64::MAX,
    ensures
        civil(seconds).wf(),
        civil(seconds).year >= 1970,
        civil(seconds).epoch_seconds() == seconds,
{
    lemma_year_descent_meaning(seconds, 1970);
    lemma_year_descent_reach(seconds, 1970);
    let (year, in_year) = year_descent(seconds, 1970);
    let leap = is_leap(year);
    lemma_days_before_table(leap);
    lemma_month_descent_meaning(in_year, leap, Month::January);
}

/// A timestamp that the calendar has lies within its year.
pub proof fn lemma_timestamp_within_year(ts: CalendarTimestamp)
    requires
        ts.wf(),
    ensures
        0 <= ts.seconds_into_year() < seconds_in_year(ts.year as int),
{
    lemma_days_before_table(is_leap(ts.year as int));
}

/// A day of the year belongs to one month only: with the same days before
/// them, two days of months are the same day of the same month.
proof fn lemma_day_of_year_unique(leap: bool, m1: Month, d1: int, m2: Month, d2: int)
    requires
        1 <= d1 <= m1.days(leap),
        1 <= d2 <= m2.days(leap),
        m1.days_before(leap) + d1 == m2.days_before(leap) + d2,
    ensures
        m1 == m2,
        d1 == d2,
{
    lemma_days_before_table(leap);
}

/// A time of day is known by its seconds since midnight.
proof fn lemma_time_of_day_unique(h1: int, m1: int, s1: int, h2: int, m2: int, s2: int)
    requires
        0 <= m1 < 60,
        0 <= s1 < 60,
        0 <= m2 < 60,
        0 <= s2 < 60,
        h1 * 3_600 + m1 * 60 + s1 == h2 * 3_600 + m2 * 60 + s2,
    ensures
        h1 == h2,
        m1 == m2,
        s1 == s2,
{
}

/// No two timestamps stand for the same count of seconds: among the
/// timestamps from 1970 on that the calendar has, the count determines the
/// timestamp, so a timestamp is known by its `epoch_seconds`.
pub proof fn lemma_timestamp_unique(a: CalendarTimestamp, b: CalendarTimestamp)
    requires
        a.wf(),
        b.wf(),
        a.year >= 1970,
        b.year >= 1970,
        a.epoch_seconds() == b.epoch_seconds(),
    ensures
        a == b,
{
    lemma_timestamp_within_year(a);
    lemma_timestamp_within_year(b);
    lemma_year_split_unique(
        1970,
        a.year as int,
        a.seconds_into_year(),
        b.year as int,
        b.seconds_into_year(),
    );
    let leap = is_leap(a.year as int);
    let month_a = Month::of_number(a.month as int);
    let month_b = Month::of_number(b.month as int);
    let time_a = a.hour * 3_600 + a.minute * 60 + a.second;
    let time_b = b.hour * 3_600 + b.minute * 60 + b.second;
    let day_a = month_a.days_before(leap) + a.day;
    let day_b = month_b.days_before(leap) + b.day;
    assert(day_a * 86_400 + time_a == day_b * 86_400 + time_b);
    assert(day_a == day_b && time_a == time_b);
    lemma_day_of_year_unique(leap, month_a, a.day as int, month_b, b.day as int);
    lemma_time_of_day_unique(
        a.hour as int,
        a.minute as int,
        a.second as int,
        b.hour as int,
        b.minute as int,
        b.second as int,
    );
    assert(month_a.number() == a.month && month_b.number() == b.month);
}

} // verus!
