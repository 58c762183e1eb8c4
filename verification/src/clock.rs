//! Reading ISO date-times (`YYYY-MM-DDTHH:MM`, optionally `:SS`, anything
//! after that ignored) as a count of seconds, to measure free windows.
//!
//! The reading is of the wall-clock time as written: a timezone suffix is not
//! applied, just as the scheduler's text order does not apply it.

use vstd::prelude::*;
use crate::text::utf8;

verus! {

/// An ASCII decimal digit.
pub open spec fn is_digit(c: u8) -> bool {
    48 <= c <= 57
}

/// The value of the digit at `i`.
pub open spec fn digit_value(b: Seq<u8>, i: int) -> int {
    b[i] as int - 48
}

/// The two-digit number at `i`.
pub open spec fn two_digits(b: Seq<u8>, i: int) -> int {
    digit_value(b, i) * 10 + digit_value(b, i + 1)
}

/// The date-time carries seconds (`:SS` after the minutes).
pub open spec fn has_seconds(b: Seq<u8>) -> bool {
    b.len() > 16 && b[16] == 58u8
}

pub open spec fn year_of(b: Seq<u8>) -> int {
    two_digits(b, 0) * 100 + two_digits(b, 2)
}

pub open spec fn second_of(b: Seq<u8>) -> int {
    if has_seconds(b) {
        two_digits(b, 17)
    } else {
        0
    }
}

/// `b` is `YYYY-MM-DDTHH:MM`, optionally followed by `:SS`, with month 1-12,
/// day 1-31, hour 0-23, minute and second 0-59.
pub open spec fn is_stamp(b: Seq<u8>) -> bool {
    &&& b.len() >= 16
    &&& is_digit(b[0]) && is_digit(b[1]) && is_digit(b[2]) && is_digit(b[3])
    &&& b[4] == 45u8 && is_digit(b[5]) && is_digit(b[6])
    &&& b[7] == 45u8 && is_digit(b[8]) && is_digit(b[9])
    &&& b[10] == 84u8 && is_digit(b[11]) && is_digit(b[12])
    &&& b[13] == 58u8 && is_digit(b[14]) && is_digit(b[15])
    &&& has_seconds(b) ==> b.len() >= 19 && is_digit(b[17]) && is_digit(b[18])
    &&& 1 <= two_digits(b, 5) <= 12
    &&& 1 <= two_digits(b, 8) <= 31
    &&& two_digits(b, 11) <= 23
    &&& two_digits(b, 14) <= 59
    &&& second_of(b) <= 59
}

/// A leap year of the Gregorian calendar.
pub open spec fn is_leap(y: int) -> bool {
    (y % 4 == 0 && y % 100 != 0) || y % 400 == 0
}

/// Days from 0000-01-01 to the first day of year `y`.
pub open spec fn days_before_year(y: int) -> int {
    365 * y + (y + 3) / 4 - (y + 99) / 100 + (y + 399) / 400
}

/// Days from the first of the year to the first of month `m`.
pub open spec fn days_before_month(m: int, leap: bool) -> int {
    (if m <= 1 {
        0int
    } else if m == 2 {
        31
    } else if m == 3 {
        59
    } else if m == 4 {
        90
    } else if m == 5 {
        120
    } else if m == 6 {
        151
    } else if m == 7 {
        181
    } else if m == 8 {
        212
    } else if m == 9 {
        243
    } else if m == 10 {
        273
    } else if m == 11 {
        304
    } else {
        334
    }) + (if leap && m > 2 {
        1int
    } else {
        0int
    })
}

/// Seconds from 0000-01-01T00:00:00 to the date-time written in `b`, if `b`
/// is one.
pub open spec fn stamp_seconds(b: Seq<u8>) -> Option<int> {
    if is_stamp(b) {
        let y = year_of(b);
        let days = days_before_year(y) + days_before_month(two_digits(b, 5), is_leap(y)) + two_digits(b, 8) - 1;
        Some(((days * 24 + two_digits(b, 11)) * 60 + two_digits(b, 14)) * 60 + second_of(b))
    } else {
        None
    }
}

/// The window from `a` to `b` lasts at least `minutes`: every window lasts at
/// least 0 minutes; for more, both bounds are date-times and they are that far
/// apart (a window whose length cannot be read is kept only when no length is
/// asked for).
pub open spec fn lasts_at_least(a: Seq<char>, b: Seq<char>, minutes: u32) -> bool {
    minutes == 0 || match (stamp_seconds(utf8(a)), stamp_seconds(utf8(b))) {
        (Some(x), Some(y)) => y - x >= minutes * 60,
        _ => false,
    }
}

/// The two-digit number at `i`, if both bytes are digits.
fn read_two(b: &[u8], i: usize) -> (r: Option<i64>)
    requires
        i + 1 < b@.len(),
    ensures
        match r {
            Some(v) => is_digit(b@[i as int]) && is_digit(b@[i + 1]) && v == two_digits(b@, i as int),
            None => !(is_digit(b@[i as int]) && is_digit(b@[i + 1])),
        },
{
    let (x, y) = (b[i], b[i + 1]);
    if 48 <= x && x <= 57 && 48 <= y && y <= 57 {
        Some((x as i64 - 48) * 10 + (y as i64 - 48))
    } else {
        None
    }
}

/// Seconds from 0000-01-01T00:00:00 to the date-time written in `s`, if it is one.
pub fn read_stamp(s: &str) -> (r: Option<i64>)
    ensures
        match r {
            Some(v) => stamp_seconds(utf8(s@)) == Some(v as int),
            None => stamp_seconds(utf8(s@)) is None,
        },
{
    let b = s.as_bytes();
    let ghost g = utf8(s@);
    assert(b@ == g);
    if b.len() < 16 || b[4] != 45 || b[7] != 45 || b[10] != 84 || b[13] != 58 {
        return None;
    }
    let y1 = match read_two(b, 0) { Some(v) => v, None => { return None; } };
    let y2 = match read_two(b, 2) { Some(v) => v, None => { return None; } };
    let mo = match read_two(b, 5) { Some(v) => v, None => { return None; } };
    let d = match read_two(b, 8) { Some(v) => v, None => { return None; } };
    let h = match read_two(b, 11) { Some(v) => v, None => { return None; } };
    let mi = match read_two(b, 14) { Some(v) => v, None => { return None; } };
    let sec: i64 = if b.len() > 16 && b[16] == 58 {
        if b.len() < 19 {
            return None;
        }
        match read_two(b, 17) { Some(v) => v, None => { return None; } }
    } else {
        0
    };
    if mo < 1 || mo > 12 || d < 1 || d > 31 || h > 23 || mi > 59 || sec > 59 {
        return None;
    }
    assert(is_stamp(g));
    let y = y1 * 100 + y2;
    let leap = (y % 4 == 0 && y % 100 != 0) || y % 400 == 0;
    let before_month: i64 = if mo <= 1 {
        0
    } else if mo == 2 {
        31
    } else if mo == 3 {
        59
    } else if mo == 4 {
        90
    } else if mo == 5 {
        120
    } else if mo == 6 {
        151
    } else if mo == 7 {
        181
    } else if mo == 8 {
        212
    } else if mo == 9 {
        243
    } else if mo == 10 {
        273
    } else if mo == 11 {
        304
    } else {
        334
    };
    let extra: i64 = if leap && mo > 2 { 1 } else { 0 };
    let days = 365 * y + (y + 3) / 4 - (y + 99) / 100 + (y + 399) / 400 + before_month + extra + d - 1;
    Some(((days * 24 + h) * 60 + mi) * 60 + sec)
}

/// Whether the window from `a` to `b` lasts at least `minutes`.
pub fn lasts(a: &str, b: &str, minutes: u32) -> (r: bool)
    ensures
        r == lasts_at_least(a@, b@, minutes),
{
    if minutes == 0 {
        return true;
    }
    match (read_stamp(a), read_stamp(b)) {
        (Some(x), Some(y)) => y - x >= minutes as i64 * 60,
        _ => false,
    }
}

/// Byte `i` of `b` is one of `0`-`9`.
pub open spec fn digit_byte(b: Seq<u8>, i: int) -> bool {
    48 <= b[i] && b[i] <= 57
}

/// The number that the digit bytes `i` and `i + 1` of `b` write.
pub open spec fn pair_value(b: Seq<u8>, i: int) -> int {
    (b[i] - 48) * 10 + (b[i + 1] - 48)
}

/// `b` is written `YYYY-MM-DDTHH:MM`, or `YYYY-MM-DDTHH:MM:SS` (anything may
/// follow), with a month from 1 to 12, a day from 1 to 31, an hour from 0 to
/// 23 and minutes and seconds from 0 to 59.
pub open spec fn written_date_time(b: Seq<u8>) -> bool {
    &&& b.len() >= 16
    &&& digit_byte(b, 0) && digit_byte(b, 1) && digit_byte(b, 2) && digit_byte(b, 3)
    &&& b[4] == 45 && digit_byte(b, 5) && digit_byte(b, 6)
    &&& b[7] == 45 && digit_byte(b, 8) && digit_byte(b, 9)
    &&& b[10] == 84 && digit_byte(b, 11) && digit_byte(b, 12)
    &&& b[13] == 58 && digit_byte(b, 14) && digit_byte(b, 15)
    &&& 1 <= pair_value(b, 5) <= 12
    &&& 1 <= pair_value(b, 8) <= 31
    &&& pair_value(b, 11) <= 23
    &&& pair_value(b, 14) <= 59
    &&& (b.len() > 16 && b[16] == 58) ==> (b.len() >= 19 && digit_byte(b, 17) && digit_byte(b, 18) && pair_value(
        b,
        17,
    ) <= 59)
}

/// The seconds since midnight that the time of `b` writes.
pub open spec fn clock_seconds(b: Seq<u8>) -> int {
    pair_value(b, 11) * 3600 + pair_value(b, 14) * 60 + (if b.len() > 16 && b[16] == 58 {
        pair_value(b, 17)
    } else {
        0
    })
}

/// Every date-time written in the ISO form is read: no month, day, hour,
/// minute or second in range makes it unmeasurable.
pub proof fn law_date_times_are_read(b: Seq<u8>)
    requires
        written_date_time(b),
    ensures
        stamp_seconds(b) is Some,
{
}

/// Two date-times of the same day are as far apart as their clock times.
pub proof fn law_same_day_times_differ_by_their_clocks(b1: Seq<u8>, b2: Seq<u8>)
    requires
        written_date_time(b1),
        written_date_time(b2),
        b1.subrange(0, 10) == b2.subrange(0, 10),
    ensures
        stamp_seconds(b1) is Some,
        stamp_seconds(b2) is Some,
        stamp_seconds(b2).unwrap() - stamp_seconds(b1).unwrap() == clock_seconds(b2) - clock_seconds(b1),
{
    assert forall|i: int| 0 <= i < 10 implies b1[i] == b2[i] by {
        assert(b1.subrange(0, 10)[i] == b1[i]);
        assert(b2.subrange(0, 10)[i] == b2[i]);
    }
}

/// The same time on the next day of a month is one day (86 400 seconds) later.
pub proof fn law_next_day_is_a_day_later(b1: Seq<u8>, b2: Seq<u8>)
    requires
        written_date_time(b1),
        written_date_time(b2),
        b1.subrange(0, 8) == b2.subrange(0, 8),
        pair_value(b2, 8) == pair_value(b1, 8) + 1,
        clock_seconds(b1) == clock_seconds(b2),
    ensures
        stamp_seconds(b1) is Some,
        stamp_seconds(b2) is Some,
        stamp_seconds(b2).unwrap() - stamp_seconds(b1).unwrap() == 86400,
{
    assert forall|i: int| 0 <= i < 8 implies b1[i] == b2[i] by {
        assert(b1.subrange(0, 8)[i] == b1[i]);
        assert(b2.subrange(0, 8)[i] == b2[i]);
    }
}

/// The year that the first four digit bytes of `b` write.
pub open spec fn year_value(b: Seq<u8>) -> int {
    pair_value(b, 0) * 100 + pair_value(b, 2)
}

/// The number of days of month `m` of year `y` in the Gregorian calendar.
pub open spec fn month_length(y: int, m: int) -> int {
    if m == 2 {
        if (y % 4 == 0 && y % 100 != 0) || y % 400 == 0 {
            29
        } else {
            28
        }
    } else if m == 4 || m == 6 || m == 9 || m == 11 {
        30
    } else {
        31
    }
}

/// The same time on the first of the next month is one day after the last
/// day of a month (of 28, 29, 30 or 31 days as the calendar gives it).
pub proof fn law_next_month_begins_a_day_later(b1: Seq<u8>, b2: Seq<u8>)
    requires
        written_date_time(b1),
        written_date_time(b2),
        b1.subrange(0, 4) == b2.subrange(0, 4),
        pair_value(b2, 5) == pair_value(b1, 5) + 1,
        pair_value(b1, 8) == month_length(year_value(b1), pair_value(b1, 5)),
        pair_value(b2, 8) == 1,
        clock_seconds(b1) == clock_seconds(b2),
    ensures
        stamp_seconds(b1) is Some,
        stamp_seconds(b2) is Some,
        stamp_seconds(b2).unwrap() - stamp_seconds(b1).unwrap() == 86400,
{
    assert forall|i: int| 0 <= i < 4 implies b1[i] == b2[i] by {
        assert(b1.subrange(0, 4)[i] == b1[i]);
        assert(b2.subrange(0, 4)[i] == b2[i]);
    }
}

/// The same time on the first of January is one day after the 31st of
/// December of the year before.
pub proof fn law_next_year_begins_a_day_later(b1: Seq<u8>, b2: Seq<u8>)
    requires
        written_date_time(b1),
        written_date_time(b2),
        year_value(b2) == year_value(b1) + 1,
        pair_value(b1, 5) == 12,
        pair_value(b1, 8) == 31,
        pair_value(b2, 5) == 1,
        pair_value(b2, 8) == 1,
        clock_seconds(b1) == clock_seconds(b2),
    ensures
        stamp_seconds(b1) is Some,
        stamp_seconds(b2) is Some,
        stamp_seconds(b2).unwrap() - stamp_seconds(b1).unwrap() == 86400,
{
    lemma_year_length(year_value(b1));
}

/// A year has 366 days when it is a leap year and 365 otherwise.
proof fn lemma_year_length(y: int)
    requires
        y >= 0,
    ensures
        days_before_year(y + 1) - days_before_year(y) == if is_leap(y) { 366int } else { 365int },
{
    let (a, b, c) = ((y + 3) / 4, (y + 99) / 100, (y + 399) / 400);
    assert((y + 4) / 4 == a + (if y % 4 == 0 { 1int } else { 0int })) by (nonlinear_arith)
        requires
            y >= 0,
            a == (y + 3) / 4,
    ;
    assert((y + 100) / 100 == b + (if y % 100 == 0 { 1int } else { 0int })) by (nonlinear_arith)
        requires
            y >= 0,
            b == (y + 99) / 100,
    ;
    assert((y + 400) / 400 == c + (if y % 400 == 0 { 1int } else { 0int })) by (nonlinear_arith)
        requires
            y >= 0,
            c == (y + 399) / 400,
    ;
}

} // verus!
