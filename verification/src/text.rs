//! Decimal text: numbers, two-digit fields, timestamps and durations.

use crate::timestamp::{
    civil, civil_from_epoch, clamp_seconds, lemma_civil_round_trip, CalendarTimestamp,
};
use vstd::prelude::*;

verus! {

/// The character that stands for the digit `d`.
pub open spec fn digit_char(d: int) -> char {
    if d == 0 {
        '0'
    } else if d == 1 {
        '1'
    } else if d == 2 {
        '2'
    } else if d == 3 {
        '3'
    } else if d == 4 {
        '4'
    } else if d == 5 {
        '5'
    } else if d == 6 {
        '6'
    } else if d == 7 {
        '7'
    } else if d == 8 {
        '8'
    } else {
        '9'
    }
}

/// The decimal digits of `n`, most significant first, without leading zeros.
pub open spec fn decimal_digits(n: nat) -> Seq<char>
    decreases n,
{
    if n < 10 {
        seq![digit_char(n as int)]
    } else {
        decimal_digits(n / 10).push(digit_char((n % 10) as int))
    }
}

/// The decimal text of `n`: a minus sign for a negative number, then the
/// digits of its magnitude.
pub open spec fn decimal_text(n: int) -> Seq<char> {
    if n < 0 {
        seq!['-'] + decimal_digits((-n) as nat)
    } else {
        decimal_digits(n as nat)
    }
}

/// The decimal text of `n` with a zero put in front of a single digit.
pub open spec fn two_digit_text(n: nat) -> Seq<char> {
    if n < 10 {
        seq!['0'] + decimal_digits(n)
    } else {
        decimal_digits(n)
    }
}

/// The text of a timestamp: the year as it is, the other fields as two-digit
/// fields, in the form `YYYY/MM/DD HH:MM:SS`.
pub open spec fn timestamp_text(ts: CalendarTimestamp) -> Seq<char> {
    decimal_text(ts.year as int) + seq!['/'] + two_digit_text(ts.month as nat) + seq!['/']
        + two_digit_text(ts.day as nat) + seq![' '] + two_digit_text(ts.hour as nat) + seq![':']
        + two_digit_text(ts.minute as nat) + seq![':'] + two_digit_text(ts.second as nat)
}

/// Hours of the day that `seconds` reaches, whole days left out.
pub open spec fn duration_hours(seconds: int) -> int {
    (seconds % 86_400) / 3_600
}

/// Minutes of the hour that `seconds` reaches.
pub open spec fn duration_minutes(seconds: int) -> int {
    ((seconds % 86_400) / 60) % 60
}

/// Seconds of the minute that `seconds` reaches.
pub open spec fn duration_seconds(seconds: int) -> int {
    (seconds % 86_400) % 60
}

/// The text of a duration, in the form `HH:MM:SS`. Whole days are dropped,
/// not carried.
pub open spec fn duration_text(seconds: int) -> Seq<char> {
    two_digit_text(duration_hours(seconds) as nat) + seq![':'] + two_digit_text(
        duration_minutes(seconds) as nat,
    ) + seq![':'] + two_digit_text(duration_seconds(seconds) as nat)
}

/// The one-character text of a digit.
fn digit_str(d: u8) -> (s: &'static str)
    requires
        d < 10,
    ensures
        s@ == seq![digit_char(d as int)],
{
    proof {
        reveal_strlit("0");
        reveal_strlit("1");
        reveal_strlit("2");
        reveal_strlit("3");
        reveal_strlit("4");
        reveal_strlit("5");
        reveal_strlit("6");
        reveal_strlit("7");
        reveal_strlit("8");
        reveal_strlit("9");
    }
    let s = match d {
        0 => "0",
        1 => "1",
        2 => "2",
        3 => "3",
        4 => "4",
        5 => "5",
        6 => "6",
        7 => "7",
        8 => "8",
        _ => "9",
    };
    assert(s@ =~= seq![digit_char(d as int)]);
    s
}

/// Appends the decimal digits of `n` to `out`.
fn push_digits(out: &mut String, n: u64)
    ensures
        final(out)@ == old(out)@ + decimal_digits(n as nat),
    decreases n,
{
    if n >= 10 {
        push_digits(out, n / 10);
    }
    let digit: u8 = (n % 10) as u8;
    out.append(digit_str(digit));
    assert(final(out)@ =~= old(out)@ + decimal_digits(n as nat));
}

/// The decimal text of `n`, as `{}` prints an integer.
pub fn decimal_string(n: i64) -> (s: String)
    ensures
        s@ == decimal_text(n as int),
{
    let mut s = String::new();
    if n < 0 {
        proof {
            reveal_strlit("-");
        }
        s.append("-");
        let magnitude: u64 = (-(n + 1)) as u64 + 1;
        push_digits(&mut s, magnitude);
        assert(s@ =~= decimal_text(n as int));
    } else {
        push_digits(&mut s, n as u64);
        assert(s@ =~= decimal_text(n as int));
    }
    s
}

/// The decimal text of `n`, with a zero in front where `n` has one digit.
pub fn two_digit_string(n: u8) -> (s: String)
    ensures
        s@ == two_digit_text(n as nat),
        n < 100 ==> s@.len() == 2,
{
    let mut s = String::new();
    if n < 10 {
        proof {
            reveal_strlit("0");
        }
        s.append("0");
    }
    push_digits(&mut s, n as u64);
    proof {
        assert(s@ =~= two_digit_text(n as nat));
        if n < 100 {
            lemma_two_digit_width(n as nat);
        }
    }
    s
}

/// A number below one hundred takes exactly two characters as a two-digit
/// field.
pub proof fn lemma_two_digit_width(n: nat)
    requires
        n < 100,
    ensures
        two_digit_text(n).len() == 2,
{
    reveal_with_fuel(decimal_digits, 2);
}

/// Writes a timestamp out as `YYYY/MM/DD HH:MM:SS`.
pub fn render_timestamp(ts: &CalendarTimestamp) -> (s: String)
    ensures
        s@ == timestamp_text(*ts),
        ts.wf() ==> s@.len() == decimal_text(ts.year as int).len() + 15,
{
    proof {
        reveal_strlit("/");
        reveal_strlit(" ");
        reveal_strlit(":");
    }
    let mut s = decimal_string(ts.year);
    s.append("/");
    s.append(two_digit_string(ts.month).as_str());
    s.append("/");
    s.append(two_digit_string(ts.day).as_str());
    s.append(" ");
    s.append(two_digit_string(ts.hour).as_str());
    s.append(":");
    s.append(two_digit_string(ts.minute).as_str());
    s.append(":");
    s.append(two_digit_string(ts.second).as_str());
    proof {
        assert(s@ =~= timestamp_text(*ts));
        if ts.wf() {
            lemma_timestamp_text_layout(*ts);
        }
    }
    s
}

/// Writes the second that starts `epoch_seconds` seconds after the Unix
/// epoch out as a UTC date and time, `YYYY/MM/DD HH:MM:SS`. A negative count
/// is taken as zero.
pub fn format_timestamp(epoch_seconds: i64) -> (s: String)
    ensures
        s@ == timestamp_text(civil(clamp_seconds(epoch_seconds as int))),
        s@.len() == decimal_text(civil(clamp_seconds(epoch_seconds as int)).year as int).len()
            + 15,
{
    let ts = civil_from_epoch(epoch_seconds);
    render_timestamp(&ts)
}

/// Writes a duration of `seconds` seconds out as `HH:MM:SS`, whole days
/// dropped. A negative duration is taken as zero.
pub fn format_duration(seconds: i64) -> (s: String)
    ensures
        s@ == duration_text(clamp_seconds(seconds as int)),
        s@.len() == 8,
{
    proof {
        reveal_strlit(":");
    }
    let clamped: i64 = if seconds < 0 {
        0
    } else {
        seconds
    };
    let in_day: i64 = clamped % 86_400;
    let hours: i64 = in_day / 3_600;
    let minutes: i64 = (in_day / 60) % 60;
    let secs: i64 = in_day % 60;
    let mut s = two_digit_string(hours as u8);
    s.append(":");
    s.append(two_digit_string(minutes as u8).as_str());
    s.append(":");
    s.append(two_digit_string(secs as u8).as_str());
    proof {
        assert(s@ =~= duration_text(clamp_seconds(seconds as int)));
        lemma_duration_text_layout(clamp_seconds(seconds as int));
    }
    s
}

/// In the text of a timestamp that the calendar has, month, day, hour, minute
/// and second take exactly two characters each, after the year and between
/// the separators.
pub proof fn lemma_timestamp_text_layout(ts: CalendarTimestamp)
    requires
        ts.wf(),
    ensures
        two_digit_text(ts.month as nat).len() == 2,
        two_digit_text(ts.day as nat).len() == 2,
        two_digit_text(ts.hour as nat).len() == 2,
        two_digit_text(ts.minute as nat).len() == 2,
        two_digit_text(ts.second as nat).len() == 2,
        ({
            let text = timestamp_text(ts);
            let y = decimal_text(ts.year as int).len() as int;
            &&& text.len() == y + 15
            &&& text.subrange(0, y) == decimal_text(ts.year as int)
            &&& text[y] == '/'
            &&& text.subrange(y + 1, y + 3) == two_digit_text(ts.month as nat)
            &&& text[y + 3] == '/'
            &&& text.subrange(y + 4, y + 6) == two_digit_text(ts.day as nat)
            &&& text[y + 6] == ' '
            &&& text.subrange(y + 7, y + 9) == two_digit_text(ts.hour as nat)
            &&& text[y + 9] == ':'
            &&& text.subrange(y + 10, y + 12) == two_digit_text(ts.minute as nat)
            &&& text[y + 12] == ':'
            &&& text.subrange(y + 13, y + 15) == two_digit_text(ts.second as nat)
        }),
{
    lemma_two_digit_width(ts.month as nat);
    lemma_two_digit_width(ts.day as nat);
    lemma_two_digit_width(ts.hour as nat);
    lemma_two_digit_width(ts.minute as nat);
    lemma_two_digit_width(ts.second as nat);
    let text = timestamp_text(ts);
    let y = decimal_text(ts.year as int).len() as int;
    assert(text.subrange(0, y) =~= decimal_text(ts.year as int));
    assert(text.subrange(y + 1, y + 3) =~= two_digit_text(ts.month as nat));
    assert(text.subrange(y + 4, y + 6) =~= two_digit_text(ts.day as nat));
    assert(text.subrange(y + 7, y + 9) =~= two_digit_text(ts.hour as nat));
    assert(text.subrange(y + 10, y + 12) =~= two_digit_text(ts.minute as nat));
    assert(text.subrange(y + 13, y + 15) =~= two_digit_text(ts.second as nat));
}

/// Whatever count of seconds a timestamp is made from, month, day, hour,
/// minute and second take exactly two characters each in its text.
pub proof fn lemma_timestamp_fields_two_wide(epoch_seconds: i64)
    ensures
        ({
            let ts = civil(clamp_seconds(epoch_seconds as int));
            &&& two_digit_text(ts.month as nat).len() == 2
            &&& two_digit_text(ts.day as nat).len() == 2
            &&& two_digit_text(ts.hour as nat).len() == 2
            &&& two_digit_text(ts.minute as nat).len() == 2
            &&& two_digit_text(ts.second as nat).len() == 2
            &&& timestamp_text(ts).len() == decimal_text(ts.year as int).len() + 15
        }),
{
    lemma_civil_round_trip(clamp_seconds(epoch_seconds as int));
    lemma_timestamp_text_layout(civil(clamp_seconds(epoch_seconds as int)));
}

/// The text of a duration is eight characters: three fields of exactly two,
/// with a colon after the first and after the second.
pub proof fn lemma_duration_text_layout(seconds: int)
    requires
        0 <= seconds,
    ensures
        0 <= duration_hours(seconds) < 24,
        0 <= duration_minutes(seconds) < 60,
        0 <= duration_seconds(seconds) < 60,
        two_digit_text(duration_hours(seconds) as nat).len() == 2,
        two_digit_text(duration_minutes(seconds) as nat).len() == 2,
        two_digit_text(duration_seconds(seconds) as nat).len() == 2,
        ({
            let text = duration_text(seconds);
            &&& text.len() == 8
            &&& text.subrange(0, 2) == two_digit_text(duration_hours(seconds) as nat)
            &&& text[2] == ':'
            &&& text.subrange(3, 5) == two_digit_text(duration_minutes(seconds) as nat)
            &&& text[5] == ':'
            &&& text.subrange(6, 8) == two_digit_text(duration_seconds(seconds) as nat)
        }),
{
    lemma_two_digit_width(duration_hours(seconds) as nat);
    lemma_two_digit_width(duration_minutes(seconds) as nat);
    lemma_two_digit_width(duration_seconds(seconds) as nat);
    let text = duration_text(seconds);
    assert(text.subrange(0, 2) =~= two_digit_text(duration_hours(seconds) as nat));
    assert(text.subrange(3, 5) =~= two_digit_text(duration_minutes(seconds) as nat));
    assert(text.subrange(6, 8) =~= two_digit_text(duration_seconds(seconds) as nat));
}

/// A duration reads the same with its whole days taken off: the text wraps
/// at one day and carries nothing into days.
pub proof fn lemma_duration_wraps_daily(seconds: int)
    requires
        0 <= seconds,
    ensures
        duration_text(seconds) == duration_text(seconds % 86_400),
        duration_text(seconds + 86_400) == duration_text(seconds),
{
    let in_day = seconds % 86_400;
    assert(in_day % 86_400 == in_day);
    assert((seconds + 86_400) % 86_400 == in_day);
}

} // verus!
