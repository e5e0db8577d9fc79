use babysleep::calendar::{is_leap_year, month_from_seconds, year_from_seconds, Month};
use babysleep::timestamp::{civil_from_epoch, CalendarTimestamp};

const DAY: i64 = 86_400;

fn stamp(year: i64, month: u8, day: u8, hour: u8, minute: u8, second: u8) -> CalendarTimestamp {
    CalendarTimestamp { year, month, day, hour, minute, second }
}

#[test]
fn leap_years_follow_the_gregorian_rule() {
    assert!(is_leap_year(2000));
    assert!(!is_leap_year(1900));
    assert!(is_leap_year(2024));
    assert!(!is_leap_year(2023));
}

#[test]
fn leap_years_of_other_centuries() {
    assert!(is_leap_year(1600));
    assert!(is_leap_year(2400));
    assert!(!is_leap_year(2100));
    assert!(!is_leap_year(1970));
    assert!(is_leap_year(1972));
    assert!(is_leap_year(0));
}

#[test]
fn leap_years_before_year_zero() {
    assert!(is_leap_year(-4));
    assert!(is_leap_year(-400));
    assert!(!is_leap_year(-100));
    assert!(!is_leap_year(-1));
}

#[test]
fn year_from_seconds_stays_in_the_first_year() {
    assert_eq!(year_from_seconds(0, 1970), (1970, 0));
    assert_eq!(year_from_seconds(365 * DAY - 1, 1970), (1970, 365 * DAY - 1));
}

#[test]
fn year_from_seconds_counts_a_common_year_as_365_days() {
    assert_eq!(year_from_seconds(365 * DAY, 1970), (1971, 0));
    assert_eq!(year_from_seconds(355 * DAY, 1970), (1970, 355 * DAY));
}

#[test]
fn year_from_seconds_counts_a_leap_year_as_366_days() {
    assert_eq!(year_from_seconds(366 * DAY - 1, 1972), (1972, 366 * DAY - 1));
    assert_eq!(year_from_seconds(366 * DAY, 1972), (1973, 0));
    assert_eq!(year_from_seconds(365 * DAY, 1972), (1972, 365 * DAY));
}

#[test]
fn year_from_seconds_walks_over_many_years() {
    assert_eq!(year_from_seconds(1_700_000_000, 1970), (2023, 27_468_800));
    assert_eq!(year_from_seconds(4_102_444_800, 1970), (2100, 0));
}

#[test]
fn year_from_seconds_hands_a_negative_count_back() {
    assert_eq!(year_from_seconds(-1, 1970), (1970, -1));
    assert_eq!(year_from_seconds(i64::MIN, i64::MAX), (i64::MAX, i64::MIN));
}

#[test]
fn year_from_seconds_starts_from_any_year() {
    assert_eq!(year_from_seconds(2 * 365 * DAY + 5, -2), (0, 5));
    assert_eq!(year_from_seconds(0, i64::MAX), (i64::MAX, 0));
}

#[test]
fn increment_goes_through_the_year() {
    assert_eq!(Month::January.increment(), Month::February);
    assert_eq!(Month::February.increment(), Month::March);
    assert_eq!(Month::March.increment(), Month::April);
    assert_eq!(Month::April.increment(), Month::May);
    assert_eq!(Month::May.increment(), Month::June);
    assert_eq!(Month::June.increment(), Month::July);
    assert_eq!(Month::July.increment(), Month::August);
    assert_eq!(Month::August.increment(), Month::September);
    assert_eq!(Month::September.increment(), Month::October);
    assert_eq!(Month::October.increment(), Month::November);
    assert_eq!(Month::November.increment(), Month::December);
}

#[test]
fn increment_wraps_from_december_to_january() {
    assert_eq!(Month::December.increment(), Month::January);
}

#[test]
fn months_have_their_numbers() {
    assert_eq!(Month::January.to_number(), 1);
    assert_eq!(Month::June.to_number(), 6);
    assert_eq!(Month::December.to_number(), 12);
}

#[test]
fn months_have_their_lengths() {
    let lengths: Vec<i64> = [
        Month::January,
        Month::February,
        Month::March,
        Month::April,
        Month::May,
        Month::June,
        Month::July,
        Month::August,
        Month::September,
        Month::October,
        Month::November,
        Month::December,
    ]
    .iter()
    .map(|m| m.length(false))
    .collect();
    assert_eq!(lengths, vec![31, 28, 31, 30, 31, 30, 31, 31, 30, 31, 30, 31]);
    assert_eq!(Month::February.length(true), 29);
    assert_eq!(Month::March.length(true), 31);
}

#[test]
fn month_from_seconds_stays_in_january() {
    assert_eq!(month_from_seconds(0, false, Month::January), (1, 0));
    assert_eq!(month_from_seconds(31 * DAY - 1, false, Month::January), (1, 31 * DAY - 1));
}

#[test]
fn month_from_seconds_starts_a_month_on_its_first_second() {
    assert_eq!(month_from_seconds(31 * DAY, false, Month::January), (2, 0));
    assert_eq!(month_from_seconds(59 * DAY, false, Month::January), (3, 0));
    assert_eq!(month_from_seconds(334 * DAY, false, Month::January), (12, 0));
}

#[test]
fn month_from_seconds_gives_february_a_leap_day() {
    assert_eq!(month_from_seconds(59 * DAY, true, Month::January), (2, 28 * DAY));
    assert_eq!(month_from_seconds(60 * DAY, true, Month::January), (3, 0));
    assert_eq!(month_from_seconds(28 * DAY, true, Month::February), (2, 28 * DAY));
    assert_eq!(month_from_seconds(28 * DAY, false, Month::February), (3, 0));
}

#[test]
fn month_from_seconds_reaches_the_last_second_of_the_year() {
    assert_eq!(month_from_seconds(365 * DAY - 1, false, Month::January), (12, 31 * DAY - 1));
    assert_eq!(month_from_seconds(366 * DAY - 1, true, Month::January), (12, 31 * DAY - 1));
}

#[test]
fn month_from_seconds_goes_on_with_january_after_december() {
    assert_eq!(month_from_seconds(31 * DAY, false, Month::December), (1, 0));
    assert_eq!(month_from_seconds(365 * DAY + 3, false, Month::January), (1, 3));
    assert_eq!(month_from_seconds(62 * DAY + 7, true, Month::December), (2, 7));
}

#[test]
fn month_from_seconds_hands_a_negative_count_back() {
    assert_eq!(month_from_seconds(-5, false, Month::April), (4, -5));
}

#[test]
fn the_epoch_starts_on_the_first_of_january_1970() {
    assert_eq!(civil_from_epoch(0), stamp(1970, 1, 1, 0, 0, 0));
}

#[test]
fn civil_time_counts_days_from_one() {
    assert_eq!(civil_from_epoch(DAY - 1), stamp(1970, 1, 1, 23, 59, 59));
    assert_eq!(civil_from_epoch(DAY), stamp(1970, 1, 2, 0, 0, 0));
    assert_eq!(civil_from_epoch(31 * DAY - 1), stamp(1970, 1, 31, 23, 59, 59));
    assert_eq!(civil_from_epoch(2_678_400), stamp(1970, 2, 1, 0, 0, 0));
    assert_eq!(civil_from_epoch(5_097_600), stamp(1970, 3, 1, 0, 0, 0));
}

#[test]
fn civil_time_of_known_dates() {
    assert_eq!(civil_from_epoch(31_535_999), stamp(1970, 12, 31, 23, 59, 59));
    assert_eq!(civil_from_epoch(31_536_000), stamp(1971, 1, 1, 0, 0, 0));
    assert_eq!(civil_from_epoch(68_212_800), stamp(1972, 2, 29, 12, 0, 0));
    assert_eq!(civil_from_epoch(68_256_000), stamp(1972, 3, 1, 0, 0, 0));
    assert_eq!(civil_from_epoch(946_684_799), stamp(1999, 12, 31, 23, 59, 59));
    assert_eq!(civil_from_epoch(951_782_400), stamp(2000, 2, 29, 0, 0, 0));
    assert_eq!(civil_from_epoch(1_000_000_000), stamp(2001, 9, 9, 1, 46, 40));
    assert_eq!(civil_from_epoch(1_700_000_000), stamp(2023, 11, 14, 22, 13, 20));
    assert_eq!(civil_from_epoch(1_709_251_199), stamp(2024, 2, 29, 23, 59, 59));
    assert_eq!(civil_from_epoch(2_147_483_647), stamp(2038, 1, 19, 3, 14, 7));
}

#[test]
fn civil_time_skips_the_leap_day_of_2100() {
    assert_eq!(civil_from_epoch(4_102_444_800), stamp(2100, 1, 1, 0, 0, 0));
    assert_eq!(civil_from_epoch(4_107_542_400 - 1), stamp(2100, 2, 28, 23, 59, 59));
    assert_eq!(civil_from_epoch(4_107_542_400), stamp(2100, 3, 1, 0, 0, 0));
}

#[test]
fn civil_time_of_the_last_second_of_9999() {
    assert_eq!(civil_from_epoch(253_402_300_799), stamp(9999, 12, 31, 23, 59, 59));
}

#[test]
fn civil_time_takes_a_negative_count_as_zero() {
    assert_eq!(civil_from_epoch(-1), stamp(1970, 1, 1, 0, 0, 0));
    assert_eq!(civil_from_epoch(i64::MIN), stamp(1970, 1, 1, 0, 0, 0));
}

#[test]
fn civil_time_stands_for_the_count_it_was_made_from() {
    let days_before = [0i64, 31, 59, 90, 120, 151, 181, 212, 243, 273, 304, 334];
    let mut seconds: i64 = 0;
    while seconds < 200_000_000 {
        let ts = civil_from_epoch(seconds);
        let mut days: i64 = 0;
        let mut year = 1970;
        while year < ts.year {
            days += if is_leap_year(year) { 366 } else { 365 };
            year += 1;
        }
        days += days_before[(ts.month - 1) as usize];
        if ts.month > 2 && is_leap_year(ts.year) {
            days += 1;
        }
        days += ts.day as i64 - 1;
        let back = days * DAY + ts.hour as i64 * 3_600 + ts.minute as i64 * 60 + ts.second as i64;
        assert_eq!(back, seconds);
        seconds += 86_399 * 37 + 11;
    }
}
