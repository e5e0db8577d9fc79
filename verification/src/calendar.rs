//! Proleptic Gregorian calendar arithmetic on whole seconds.
//!
//! A count of seconds is split into a year and a remainder by walking forward
//! one year at a time, and the remainder into a month and a remainder by
//! walking forward one month at a time. Both walks are specified twice: as the
//! walk itself, and by what the result means (the seconds skipped plus the
//! remainder give back the input, and the remainder fits in the year or month
//! that was reached).

use vstd::prelude::*;

verus! {

/// Seconds in one minute.
pub const SECONDS_PER_MINUTE: i64 = 60;

/// Seconds in one hour.
pub const SECONDS_PER_HOUR: i64 = 3_600;

/// Seconds in one day.
pub const SECONDS_PER_DAY: i64 = 86_400;

/// The year in which the Unix epoch starts.
pub const EPOCH_YEAR: i64 = 1970;

/// Whether `year` is a leap year: divisible by 400, or divisible by 4 and
/// not by 100.
pub open spec fn is_leap(year: int) -> bool {
    year % 400 == 0 || (year % 4 == 0 && year % 100 != 0)
}

/// One for a leap year, zero for a common one: the days that February adds.
pub open spec fn leap_days(leap: bool) -> int {
    if leap {
        1
    } else {
        0
    }
}

/// Days in `year`.
pub open spec fn days_in_year(year: int) -> int {
    365 + leap_days(is_leap(year))
}

/// Seconds in `year`.
pub open spec fn seconds_in_year(year: int) -> int {
    days_in_year(year) * 86_400
}

/// Seconds in the years `from`, `from + 1`, ..., `to - 1`; zero when there is
/// no such year.
pub open spec fn seconds_in_years(from: int, to: int) -> int
    decreases to - from,
{
    if to <= from {
        0
    } else {
        seconds_in_years(from, to - 1) + seconds_in_year(to - 1)
    }
}

/// The walk over years: as long as `total` holds at least the seconds of
/// `year`, take them off and go on to the next year. Gives the year reached
/// and the seconds left.
pub open spec fn year_descent(total: int, year: int) -> (int, int)
    decreases total,
{
    if total < seconds_in_year(year) {
        (year, total)
    } else {
        year_descent(total - seconds_in_year(year), year + 1)
    }
}

/// A number and its negation are divisible by the same moduli.
proof fn lemma_divisible_negation(a: int)
    ensures
        (a % 4 == 0) == ((-a) % 4 == 0),
        (a % 100 == 0) == ((-a) % 100 == 0),
        (a % 400 == 0) == ((-a) % 400 == 0),
{
}

/// The seconds in a run of years grow with the run: each year adds at least a
/// common year's worth.
pub proof fn lemma_seconds_in_years_lower_bound(from: int, to: int)
    requires
        from <= to,
    ensures
        seconds_in_years(from, to) >= (to - from) * 31_536_000,
    decreases to - from,
{
    if from < to {
        lemma_seconds_in_years_lower_bound(from, to - 1);
    }
}

/// What the walk over years means: for a non-negative `total` it reaches the
/// one year `y >= year` such that the years before it hold no more than
/// `total` seconds and the rest fits in `y`.
pub proof fn lemma_year_descent_meaning(total: int, year: int)
    requires
        0 <= total,
    ensures
        ({
            let (y, rest) = year_descent(total, year);
            &&& year <= y
            &&& 0 <= rest < seconds_in_year(y)
            &&& seconds_in_years(year, y) + rest == total
        }),
    decreases total,
{
    if total >= seconds_in_year(year) {
        let next = total - seconds_in_year(year);
        lemma_year_descent_meaning(next, year + 1);
        let (y, rest) = year_descent(next, year + 1);
        lemma_seconds_in_years_split(year, year + 1, y);
        assert(seconds_in_years(year, year + 1) == seconds_in_year(year)) by {
            assert(seconds_in_years(year, year) == 0);
        }
    } else {
        assert(seconds_in_years(year, year) == 0);
    }
}

/// The walk over years goes no further than the years that `total` could
/// fill if every year were a common one.
pub proof fn lemma_year_descent_reach(total: int, year: int)
    requires
        0 <= total,
    ensures
        year_descent(total, year).0 <= year + total / 31_536_000,
{
    lemma_year_descent_meaning(total, year);
    lemma_seconds_in_years_lower_bound(year, year_descent(total, year).0);
}

/// A run of years can be cut at any year inside it.
pub proof fn lemma_seconds_in_years_split(from: int, mid: int, to: int)
    requires
        from <= mid <= to,
    ensures
        seconds_in_years(from, to) == seconds_in_years(from, mid) + seconds_in_years(mid, to),
    decreases to - mid,
{
    if mid < to {
        lemma_seconds_in_years_split(from, mid, to - 1);
    } else {
        assert(seconds_in_years(mid, to) == 0);
    }
}

/// No two splits of the same total exist: a year and a remainder that fits
/// in it determine the total, and the total determines them.
pub proof fn lemma_year_split_unique(from: int, y1: int, r1: int, y2: int, r2: int)
    requires
        from <= y1,
        from <= y2,
        0 <= r1 < seconds_in_year(y1),
        0 <= r2 < seconds_in_year(y2),
        seconds_in_years(from, y1) + r1 == seconds_in_years(from, y2) + r2,
    ensures
        y1 == y2,
        r1 == r2,
{
    if y1 < y2 {
        lemma_seconds_in_years_split(from, y1 + 1, y2);
        lemma_seconds_in_years_lower_bound(y1 + 1, y2);
        assert(seconds_in_years(from, y1 + 1) == seconds_in_years(from, y1) + seconds_in_year(y1));
    } else if y2 < y1 {
        lemma_seconds_in_years_split(from, y2 + 1, y1);
        lemma_seconds_in_years_lower_bound(y2 + 1, y1);
        assert(seconds_in_years(from, y2 + 1) == seconds_in_years(from, y2) + seconds_in_year(y2));
    }
}

/// Decides whether `year` is a leap year.
pub fn is_leap_year(year: i64) -> (leap: bool)
    ensures
        leap == is_leap(year as int),
{
    proof {
        lemma_divisible_negation(year as int);
    }
    if year % 400 == 0 {
        true
    } else if year % 100 == 0 {
        false
    } else {
        year % 4 == 0
    }
}

/// Splits `total_secs` seconds, counted from the start of `year`, into the
/// year they fall in and the seconds into that year.
///
/// A negative count is handed back unchanged with `year`. The year that is
/// reached has to fit in `i64`; `lemma_year_descent_reach` bounds it by
/// plain arithmetic.
pub fn year_from_seconds(total_secs: i64, year: i64) -> (split: (i64, i64))
    requires
        year_descent(total_secs as int, year as int).0 <= i64::MAX,
    ensures
        (split.0 as int, split.1 as int) == year_descent(total_secs as int, year as int),
        total_secs < 0 ==> split == (year, total_secs),
        total_secs >= 0 ==> year <= split.0,
        total_secs >= 0 ==> 0 <= split.1 < seconds_in_year(split.0 as int),
        total_secs >= 0 ==> seconds_in_years(year as int, split.0 as int) + split.1 == total_secs,
{
    let mut current_year: i64 = year;
    let mut remaining: i64 = total_secs;
    loop
        invariant
            year_descent(remaining as int, current_year as int) == year_descent(
                total_secs as int,
                year as int,
            ),
            year_descent(total_secs as int, year as int).0 <= i64::MAX,
            total_secs < 0 ==> remaining == total_secs && current_year == year,
            total_secs >= 0 ==> remaining >= 0,
        ensures
            remaining < seconds_in_year(current_year as int),
        decreases remaining,
    {
        let days: i64 = if is_leap_year(current_year) {
            366
        } else {
            365
        };
        let secs_in_year: i64 = days * SECONDS_PER_DAY;
        if remaining < secs_in_year {
            break ;
        }
        proof {
            lemma_year_descent_meaning(remaining - secs_in_year, current_year + 1);
        }
        remaining = remaining - secs_in_year;
        current_year = current_year + 1;
    }
    proof {
        if total_secs >= 0 {
            lemma_year_descent_meaning(total_secs as int, year as int);
        }
    }
    (current_year, remaining)
}

/// A month of the year.
#[derive(Clone, Copy, Debug, PartialEq, Eq, Structural)]
pub enum Month {
    January,
    February,
    March,
    April,
    May,
    June,
    July,
    August,
    September,
    October,
    November,
    December,
}

impl Month {
    /// The month's number in the year, 1 for January to 12 for December.
    pub open spec fn number(self) -> int {
        match self {
            Month::January => 1,
            Month::February => 2,
            Month::March => 3,
            Month::April => 4,
            Month::May => 5,
            Month::June => 6,
            Month::July => 7,
            Month::August => 8,
            Month::September => 9,
            Month::October => 10,
            Month::November => 11,
            Month::December => 12,
        }
    }

    /// The month with the given number; January for a number outside 1..=12.
    pub open spec fn of_number(number: int) -> Month {
        if number == 2 {
            Month::February
        } else if number == 3 {
            Month::March
        } else if number == 4 {
            Month::April
        } else if number == 5 {
            Month::May
        } else if number == 6 {
            Month::June
        } else if number == 7 {
            Month::July
        } else if number == 8 {
            Month::August
        } else if number == 9 {
            Month::September
        } else if number == 10 {
            Month::October
        } else if number == 11 {
            Month::November
        } else if number == 12 {
            Month::December
        } else {
            Month::January
        }
    }

    /// The month that follows; after December the count starts over with
    /// January.
    pub open spec fn successor(self) -> Month {
        Month::of_number(self.number() % 12 + 1)
    }

    /// Days in the month, in a leap year or in a common one.
    pub open spec fn days(self, leap: bool) -> int {
        match self {
            Month::February => if leap {
                29
            } else {
                28
            },
            Month::April | Month::June | Month::September | Month::November => 30,
            _ => 31,
        }
    }

    /// Days of the year that lie before the month's first day.
    pub open spec fn days_before(self, leap: bool) -> int
        decreases self.number(),
    {
        if self == Month::January {
            0
        } else {
            let previous = Month::of_number(self.number() - 1);
            previous.days_before(leap) + previous.days(leap)
        }
    }

    /// The month that follows `self`, December being followed by January.
    pub fn increment(self) -> (next: Month)
        ensures
            next == self.successor(),
            next.number() == self.number() % 12 + 1,
    {
        match self {
            Month::January => Month::February,
            Month::February => Month::March,
            Month::March => Month::April,
            Month::April => Month::May,
            Month::May => Month::June,
            Month::June => Month::July,
            Month::July => Month::August,
            Month::August => Month::September,
            Month::September => Month::October,
            Month::October => Month::November,
            Month::November => Month::December,
            Month::December => Month::January,
        }
    }

    /// The month's number in the year, from 1.
    pub fn to_number(self) -> (number: i64)
        ensures
            number == self.number(),
            1 <= number <= 12,
    {
        match self {
            Month::January => 1,
            Month::February => 2,
            Month::March => 3,
            Month::April => 4,
            Month::May => 5,
            Month::June => 6,
            Month::July => 7,
            Month::August => 8,
            Month::September => 9,
            Month::October => 10,
            Month::November => 11,
            Month::December => 12,
        }
    }

    /// Days in the month.
    pub fn length(self, leap_year: bool) -> (days: i64)
        ensures
            days == self.days(leap_year),
            28 <= days <= 31,
    {
        match self {
            Month::January => 31,
            Month::February => {
                if leap_year {
                    29
                } else {
                    28
                }
            },
            Month::March => 31,
            Month::April => 30,
            Month::May => 31,
            Month::June => 30,
            Month::July => 31,
            Month::August => 31,
            Month::September => 30,
            Month::October => 31,
            Month::November => 30,
            Month::December => 31,
        }
    }
}

/// Seconds in `month`.
pub open spec fn seconds_in_month(month: Month, leap: bool) -> int {
    month.days(leap) * 86_400
}

/// Seconds of the year that lie before the first second of `month`.
pub open spec fn seconds_before_month(month: Month, leap: bool) -> int {
    month.days_before(leap) * 86_400
}

/// Whether `total` seconds, counted from the start of `month`, end before
/// the year does.
pub open spec fn stays_in_year(total: int, leap: bool, month: Month) -> bool {
    0 <= total && seconds_before_month(month, leap) + total < (365 + leap_days(leap)) * 86_400
}

/// The walk over months: as long as `total` holds at least the seconds of
/// `month`, take them off and go on to the next month. Gives the month
/// reached and the seconds left.
pub open spec fn month_descent(total: int, leap: bool, month: Month) -> (Month, int)
    decreases total,
{
    if total < seconds_in_month(month, leap) {
        (month, total)
    } else {
        month_descent(total - seconds_in_month(month, leap), leap, month.successor())
    }
}

/// The days before each month, written out: the running sum of the months'
/// lengths.
pub proof fn lemma_days_before_table(leap: bool)
    ensures
        Month::January.days_before(leap) == 0,
        Month::February.days_before(leap) == 31,
        Month::March.days_before(leap) == 59 + leap_days(leap),
        Month::April.days_before(leap) == 90 + leap_days(leap),
        Month::May.days_before(leap) == 120 + leap_days(leap),
        Month::June.days_before(leap) == 151 + leap_days(leap),
        Month::July.days_before(leap) == 181 + leap_days(leap),
        Month::August.days_before(leap) == 212 + leap_days(leap),
        Month::September.days_before(leap) == 243 + leap_days(leap),
        Month::October.days_before(leap) == 273 + leap_days(leap),
        Month::November.days_before(leap) == 304 + leap_days(leap),
        Month::December.days_before(leap) == 334 + leap_days(leap),
        Month::December.days_before(leap) + Month::December.days(leap) == 365 + leap_days(leap),
{
    reveal_with_fuel(Month::days_before, 13);
}

/// What the walk over months means while it stays inside one year: it
/// reaches the one month such that the months before it hold no more than
/// the seconds counted from the start of the year, and the rest fits in it.
pub proof fn lemma_month_descent_meaning(total: int, leap: bool, month: Month)
    requires
        stays_in_year(total, leap, month),
    ensures
        ({
            let (m, rest) = month_descent(total, leap, month);
            &&& month.number() <= m.number()
            &&& 0 <= rest < seconds_in_month(m, leap)
            &&& seconds_before_month(m, leap) + rest == seconds_before_month(month, leap) + total
        }),
    decreases total,
{
    lemma_days_before_table(leap);
    if total >= seconds_in_month(month, leap) {
        lemma_month_descent_meaning(
            total - seconds_in_month(month, leap),
            leap,
            month.successor(),
        );
    }
}

/// Splits `total_secs` seconds, counted from the start of `month`, into the
/// month they fall in and the seconds into that month. The month is given by
/// its number, 1 for January to 12 for December.
///
/// A negative count is handed back unchanged with the number of `month`.
/// A count that runs past December goes on with January.
pub fn month_from_seconds(total_secs: i64, leap_year: bool, month: Month) -> (split: (i64, i64))
    ensures
        split.0 == month_descent(total_secs as int, leap_year, month).0.number(),
        split.1 == month_descent(total_secs as int, leap_year, month).1,
        1 <= split.0 <= 12,
        total_secs < 0 ==> split == (month.number() as i64, total_secs),
        stays_in_year(total_secs as int, leap_year, month) ==> month.number() <= split.0,
        stays_in_year(total_secs as int, leap_year, month) ==> 0 <= split.1 < seconds_in_month(
            Month::of_number(split.0 as int),
            leap_year,
        ),
        stays_in_year(total_secs as int, leap_year, month) ==> seconds_before_month(
            Month::of_number(split.0 as int),
            leap_year,
        ) + split.1 == seconds_before_month(month, leap_year) + total_secs,
{
    let mut current: Month = month;
    let mut remaining: i64 = total_secs;
    loop
        invariant
            month_descent(remaining as int, leap_year, current) == month_descent(
                total_secs as int,
                leap_year,
                month,
            ),
            total_secs < 0 ==> remaining == total_secs && current == month,
        ensures
            remaining < seconds_in_month(current, leap_year),
        decreases remaining,
    {
        let secs_in_month: i64 = current.length(leap_year) * SECONDS_PER_DAY;
        if remaining < secs_in_month {
            break ;
        }
        remaining = remaining - secs_in_month;
        current = current.increment();
    }
    proof {
        if stays_in_year(total_secs as int, leap_year, month) {
            lemma_month_descent_meaning(total_secs as int, leap_year, month);
        }
    }
    (current.to_number(), remaining)
}

} // verus!
