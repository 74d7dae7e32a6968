use chrono::{Datelike, Timelike};
use vstd::prelude::*;

use crate::calendar::{days_in_month, is_valid_ymd, next_day, prev_day, MAX_CHRONO_YEAR, MIN_CHRONO_YEAR};
use crate::date::Date;
use crate::error::Error;

verus! {

/// A moment given by its calendar fields in UTC.
#[derive(Clone, Copy, PartialEq, Eq, Structural, Hash, Debug)]
pub struct UtcDateTime {
    pub year: i32,
    pub month: u32,
    pub day: u32,
    pub hour: u32,
    pub minute: u32,
    pub second: u32,
}

/// A moment together with the whole-hour UTC offset it was written in.
#[derive(Clone, Copy, PartialEq, Eq, Structural, Hash, Debug)]
pub struct OffsetDateTime {
    /// The moment, in UTC.
    pub utc: UtcDateTime,
    /// The offset from UTC, in hours, that the moment was written in.
    pub offset_hours: i32,
}

pub open spec fn is_digit(c: char) -> bool {
    '0' <= c <= '9'
}

pub open spec fn digit_value(c: char) -> int {
    c as int - '0' as int
}

/// The number written by the two digits at `i` and `i + 1`.
pub open spec fn num2(s: Seq<char>, i: int) -> int {
    10 * digit_value(s[i]) + digit_value(s[i + 1])
}

pub open spec fn digits2(s: Seq<char>, i: int) -> bool {
    is_digit(s[i]) && is_digit(s[i + 1])
}

/// The text has the shape `YYYY-MM-DDTHH:MM:SS±HH`.
pub open spec fn has_shape(s: Seq<char>) -> bool {
    &&& s.len() == 22
    &&& digits2(s, 0) && digits2(s, 2)
    &&& s[4] == '-'
    &&& digits2(s, 5)
    &&& s[7] == '-'
    &&& digits2(s, 8)
    &&& s[10] == 'T'
    &&& digits2(s, 11)
    &&& s[13] == ':'
    &&& digits2(s, 14)
    &&& s[16] == ':'
    &&& digits2(s, 17)
    &&& (s[19] == '+' || s[19] == '-')
    &&& digits2(s, 20)
}

pub open spec fn text_year(s: Seq<char>) -> int {
    100 * num2(s, 0) + num2(s, 2)
}

/// The signed offset in hours that the text ends with.
pub open spec fn text_offset(s: Seq<char>) -> int {
    if s[19] == '+' { num2(s, 20) } else { -num2(s, 20) }
}

/// The text is a timestamp: of the right shape, naming an existing day, a
/// time of day, and an offset of less than a day.
pub open spec fn is_timestamp(s: Seq<char>) -> bool {
    &&& has_shape(s)
    &&& is_valid_ymd(text_year(s), num2(s, 5), num2(s, 8))
    &&& num2(s, 11) < 24
    &&& num2(s, 14) < 60
    &&& num2(s, 17) < 60
    &&& num2(s, 20) < 24
}

/// Day and hour in UTC of the local day (y, m, d) at hour `h` written with offset `off`.
pub open spec fn shift_to_utc(y: int, m: int, d: int, h: int, off: int) -> (int, int, int, int) {
    let raw = h - off;
    if raw < 0 {
        let p = prev_day(y, m, d);
        (p.0, p.1, p.2, raw + 24)
    } else if raw >= 24 {
        let n = next_day(y, m, d);
        (n.0, n.1, n.2, raw - 24)
    } else {
        (y, m, d, raw)
    }
}

/// What a timestamp text stands for: the moment in UTC and the offset.
pub open spec fn decoded(s: Seq<char>) -> (int, int, int, int, int, int, int) {
    let u = shift_to_utc(text_year(s), num2(s, 5), num2(s, 8), num2(s, 11), text_offset(s));
    (u.0, u.1, u.2, u.3, num2(s, 14), num2(s, 17), text_offset(s))
}

/// Day and hour in local time, at offset `off`, of the UTC day (y, m, d) at hour `h`.
pub open spec fn shift_from_utc(y: int, m: int, d: int, h: int, off: int) -> (int, int, int, int) {
    let raw = h + off;
    if raw >= 24 {
        let n = next_day(y, m, d);
        (n.0, n.1, n.2, raw - 24)
    } else if raw < 0 {
        let p = prev_day(y, m, d);
        (p.0, p.1, p.2, raw + 24)
    } else {
        (y, m, d, raw)
    }
}

/// Decoding loses nothing: the decoded moment, seen at the decoded offset,
/// is exactly the local date and time that the text wrote.
pub proof fn lemma_decoded_shows_written_time(s: Seq<char>)
    requires
        is_timestamp(s),
    ensures
        ({
            let t = decoded(s);
            shift_from_utc(t.0, t.1, t.2, t.3, t.6) == (text_year(s), num2(s, 5), num2(s, 8), num2(s, 11))
        }),
        decoded(s).4 == num2(s, 14),
        decoded(s).5 == num2(s, 17),
{
}

/// Day and hour one hour after hour `h` of day (y, m, d).
pub open spec fn next_hour(y: int, m: int, d: int, h: int) -> (int, int, int, int) {
    if h < 23 {
        (y, m, d, h + 1)
    } else {
        let n = next_day(y, m, d);
        (n.0, n.1, n.2, 0)
    }
}

/// Day and hour of a decoded moment, in UTC.
pub open spec fn utc_hour(s: Seq<char>) -> (int, int, int, int) {
    (decoded(s).0, decoded(s).1, decoded(s).2, decoded(s).3)
}

proof fn lemma_day_steps_invert(y: int, m: int, d: int)
    requires
        1 <= m <= 12,
        1 <= d <= days_in_month(y, m),
    ensures
        ({
            let p = prev_day(y, m, d);
            next_day(p.0, p.1, p.2) == (y, m, d)
        }),
        ({
            let n = next_day(y, m, d);
            prev_day(n.0, n.1, n.2) == (y, m, d)
        }),
{
}

/// Hourly intervals stay contiguous: two timestamps written at the same offset,
/// the second one local hour after the first, decode to moments one hour
/// apart in UTC, with the same minute and second.
pub proof fn lemma_next_local_hour_is_next_utc_hour(s: Seq<char>, t: Seq<char>)
    requires
        is_timestamp(s),
        is_timestamp(t),
        text_offset(s) == text_offset(t),
        num2(s, 14) == num2(t, 14),
        num2(s, 17) == num2(t, 17),
        (text_year(t), num2(t, 5), num2(t, 8), num2(t, 11)) == next_hour(
            text_year(s),
            num2(s, 5),
            num2(s, 8),
            num2(s, 11),
        ),
    ensures
        utc_hour(t) == next_hour(utc_hour(s).0, utc_hour(s).1, utc_hour(s).2, utc_hour(s).3),
        decoded(t).4 == decoded(s).4,
        decoded(t).5 == decoded(s).5,
        decoded(t).6 == decoded(s).6,
{
    lemma_day_steps_invert(text_year(s), num2(s, 5), num2(s, 8));
    lemma_day_steps_invert(text_year(t), num2(t, 5), num2(t, 8));
}

/// Relies on chrono's `NaiveDateTime - TimeDelta` with `TimeDelta::hours`:
/// moving a time of day by whole hours changes the hour and rolls the date
/// over into the previous or next calendar day.
#[verifier::external_body]
fn chrono_hours_earlier(year: i32, month: u32, day: u32, hour: u32, hours: i32) -> (r: (
    i32,
    u32,
    u32,
    u32,
))
    requires
        is_valid_ymd(year as int, month as int, day as int),
        MIN_CHRONO_YEAR < year < MAX_CHRONO_YEAR,
        hour < 24,
        -24 < hours < 24,
    ensures
        (r.0 as int, r.1 as int, r.2 as int, r.3 as int) == shift_to_utc(
            year as int,
            month as int,
            day as int,
            hour as int,
            hours as int,
        ),
{
    let start = chrono::NaiveDate::from_ymd_opt(year, month, day).unwrap().and_hms_opt(hour, 0, 0).unwrap();
    let moved = start - chrono::TimeDelta::hours(hours as i64);
    (moved.year(), moved.month(), moved.day(), moved.hour())
}

impl OffsetDateTime {
    pub open spec fn fields(self) -> (int, int, int, int, int, int, int) {
        (
            self.utc.year as int,
            self.utc.month as int,
            self.utc.day as int,
            self.utc.hour as int,
            self.utc.minute as int,
            self.utc.second as int,
            self.offset_hours as int,
        )
    }
}

fn two_digits_at(s: &str, i: usize) -> (r: Option<u32>)
    requires
        s@.len() == 22,
        i <= 20,
    ensures
        r is Some <==> digits2(s@, i as int),
        r matches Some(v) ==> v == num2(s@, i as int) && v < 100,
{
    let a = s.get_char(i);
    let b = s.get_char(i + 1);
    if '0' <= a && a <= '9' && '0' <= b && b <= '9' {
        Some(10 * (a as u32 - '0' as u32) + (b as u32 - '0' as u32))
    } else {
        None
    }
}

/// Decodes a timestamp `YYYY-MM-DDTHH:MM:SS±HH` into the moment it names.
///
/// The date and time are local time at the given whole-hour offset from UTC,
/// so the moment in UTC lies the offset's hours earlier; the offset is kept.
pub fn decode_local_time(s: &str) -> (r: Result<OffsetDateTime, Error>)
    ensures
        r is Ok <==> is_timestamp(s@),
        r matches Ok(t) ==> t.fields() == decoded(s@),
        r matches Err(e) ==> e is MalformedTimestamp,
{
    if s.unicode_len() != 22 {
        return Err(Error::MalformedTimestamp);
    }
    let sign = s.get_char(19);
    if s.get_char(4) != '-' || s.get_char(7) != '-' || s.get_char(10) != 'T' || s.get_char(13)
        != ':' || s.get_char(16) != ':' || (sign != '+' && sign != '-') {
        return Err(Error::MalformedTimestamp);
    }
    let (century, year_in_century, month, day, hour, minute, second, offset) = match (
        two_digits_at(s, 0),
        two_digits_at(s, 2),
        two_digits_at(s, 5),
        two_digits_at(s, 8),
        two_digits_at(s, 11),
        two_digits_at(s, 14),
        two_digits_at(s, 17),
        two_digits_at(s, 20),
    ) {
        (Some(a), Some(b), Some(c), Some(d), Some(e), Some(f), Some(g), Some(h)) => (
            a,
            b,
            c,
            d,
            e,
            f,
            g,
            h,
        ),
        _ => return Err(Error::MalformedTimestamp),
    };
    assert(has_shape(s@));
    let year = (100 * century + year_in_century) as i32;
    if Date::from_ymd_opt(year, month, day).is_none() || hour >= 24 || minute >= 60 || second
        >= 60 || offset >= 24 {
        return Err(Error::MalformedTimestamp);
    }
    let offset_hours: i32 = if sign == '+' { offset as i32 } else { -(offset as i32) };
    let (y, m, d, h) = chrono_hours_earlier(year, month, day, hour, offset_hours);
    let t = OffsetDateTime {
        utc: UtcDateTime { year: y, month: m, day: d, hour: h, minute, second },
        offset_hours,
    };
    assert(t.fields() == decoded(s@));
    Ok(t)
}

} // verus!
