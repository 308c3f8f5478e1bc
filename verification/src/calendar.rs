//! Calls into `chrono` and `chrono_tz`.
//!
//! A point in time is a pair: whole seconds since 1970-01-01T00:00:00 and nanoseconds within
//! the second. A leap second has the seconds of the second before it and nanoseconds from
//! 1,000,000,000 up. The pair counts UTC for an instant and the wall clock for a local time.
//! Each executable function here states what is taken for granted of one call. What is said of
//! the terms in which they state it is proved.

use chrono::{Datelike, Offset, TimeZone, Timelike};
use vstd::prelude::*;
use vstd::string::*;
use crate::text::{all_digits, digit_char, digits_stand_for_their_place, digits_value};

verus! {

/// The first second that the calendar can hold, -262143-01-01T00:00:00.
pub const MIN_SECS: i64 = -8_334_601_228_800;

/// The last second that the calendar can hold, +262142-12-31T23:59:59.
pub const MAX_SECS: i64 = 8_210_266_876_799;

/// The day number, counted from 0001-01-01 as day 1, of 1970-01-01.
pub const EPOCH_DAY: i32 = 719_163;

/// The first day that the calendar can hold.
pub const MIN_DAY: i32 = -95_746_129;

/// The last day that the calendar can hold.
pub const MAX_DAY: i32 = 95_745_399;

/// Whether the calendar can hold the second.
pub open spec fn in_calendar(secs: int) -> bool {
    MIN_SECS <= secs <= MAX_SECS
}

/// Whether the pair is a point in time that the calendar can hold.
pub open spec fn valid_time(secs: i64, nanos: u32) -> bool {
    in_calendar(secs as int) && nanos < 2_000_000_000
}

/// Whether a clock can be this far from UTC: less than a day either way.
pub open spec fn valid_offset(seconds: int) -> bool {
    -86_400 < seconds < 86_400
}

/// Whether the wall clock reads a year from 0 to 9999.
pub open spec fn four_digit_year(local_secs: int) -> bool {
    -62_167_219_200 <= local_secs <= 253_402_300_799
}

/// What a clock face shows of a time: a leap second that does not end its minute is shown as the
/// second after it.
pub open spec fn shown_time(time: (i64, u32)) -> (i64, u32) {
    if time.1 >= 1_000_000_000 && time.0 as int % 60 != 59 {
        ((time.0 + 1) as i64, time.1 % 1_000_000_000)
    } else {
        time
    }
}

/// What a clock face without fractions of a second shows of a time.
pub open spec fn shown_second(time: (i64, u32)) -> (i64, u32) {
    let shown = shown_time(time);
    if shown.1 < 1_000_000_000 {
        (shown.0, 0)
    } else {
        (shown.0, 1_000_000_000)
    }
}

/// A number below 100 as two digits.
pub open spec fn two_digits(n: int) -> Seq<char> {
    seq![digit_char(n / 10), digit_char(n % 10)]
}

/// An offset from UTC as sign, hours and minutes, `+05:30`, to the nearest minute.
pub open spec fn offset_suffix(seconds: int) -> Seq<char> {
    let minutes = if seconds < 0 {
        (30 - seconds) / 60
    } else {
        (30 + seconds) / 60
    };
    let sign = if seconds < 0 {
        '-'
    } else {
        '+'
    };
    seq![sign] + two_digits(minutes / 60) + seq![':'] + two_digits(minutes % 60)
}

/// Whether the format is one of those in which a local time is read.
pub open spec fn local_format(format: Seq<char>) -> bool {
    ||| format == "%Y-%m-%d %H:%M:%S"@
    ||| format == "%Y-%m-%dT%H:%M:%S"@
    ||| format == "%Y-%m-%d"@
}

/// Whether the time zone database has a zone of this name.
pub uninterp spec fn zone_known(name: Seq<char>) -> bool;

/// How far the clocks of a zone are from UTC at an instant.
pub uninterp spec fn zone_offset(name: Seq<char>, secs: i64) -> i32;

/// The instant that a zone gives for a local time, where it gives a single one.
pub uninterp spec fn zone_utc(name: Seq<char>, secs: i64, nanos: u32) -> Option<(i64, u32)>;

/// The instant that an RFC 3339 text stands for.
pub uninterp spec fn rfc3339_instant(text: Seq<char>) -> Option<(i64, u32)>;

/// The local time that a text stands for in a format.
pub uninterp spec fn datetime_in_format(text: Seq<char>, format: Seq<char>) -> Option<(i64, u32)>;

/// The day that a text stands for in a format.
pub uninterp spec fn date_in_format(text: Seq<char>, format: Seq<char>) -> Option<i32>;

/// An instant as RFC 3339 text, on a clock at an offset from UTC.
pub uninterp spec fn rfc3339_text(secs: i64, nanos: u32, offset: i32) -> Seq<char>;

/// An instant as RFC 3339 text in UTC, in whole seconds.
pub uninterp spec fn rfc3339_utc_text(secs: i64, nanos: u32) -> Seq<char>;

/// Calls `chrono::FixedOffset::east_opt`, which accepts an offset of less than a day in either
/// direction and keeps it as it is.
#[verifier::external_body]
pub(crate) fn east_opt(seconds: i32) -> (r: Option<i32>)
    ensures
        r == (if valid_offset(seconds as int) {
            Some(seconds)
        } else {
            None
        }),
{
    match chrono::FixedOffset::east_opt(seconds) {
        Some(offset) => Some(offset.local_minus_utc()),
        None => None,
    }
}

/// Calls `from_local_datetime` of a `chrono::FixedOffset`, and `single` on what it gives: the
/// instant is the local time minus the offset, the nanoseconds stay, and there is none where
/// that leaves the calendar.
#[verifier::external_body]
pub(crate) fn fixed_to_utc(offset: i32, secs: i64, nanos: u32) -> (r: Option<(i64, u32)>)
    requires
        valid_offset(offset as int),
        valid_time(secs, nanos),
    ensures
        r == (if in_calendar(secs - offset) {
            Some(((secs - offset) as i64, nanos))
        } else {
            None
        }),
{
    let zone = chrono::FixedOffset::east_opt(offset).unwrap();
    let local = chrono::DateTime::from_timestamp(secs, 0).unwrap().naive_utc();
    let local = local.with_nanosecond(nanos).unwrap();
    match zone.from_local_datetime(&local).single() {
        Some(t) => {
            let t = t.with_timezone(&chrono::Utc);
            Some((t.timestamp(), t.timestamp_subsec_nanos()))
        },
        None => None,
    }
}

/// Calls `parse::<chrono_tz::Tz>`, a lookup of the name as it is written.
#[verifier::external_body]
pub(crate) fn is_zone(name: &str) -> (r: bool)
    ensures
        r == zone_known(name@),
{
    name.parse::<chrono_tz::Tz>().is_ok()
}

/// Calls `with_timezone` with a `chrono_tz::Tz` on an instant, and takes the offset of what it
/// gives. The offset depends on the whole seconds only, and is less than a day.
#[verifier::external_body]
pub(crate) fn offset_of_zone(name: &str, secs: i64) -> (r: i32)
    requires
        zone_known(name@),
        in_calendar(secs as int),
    ensures
        r == zone_offset(name@, secs),
        valid_offset(r as int),
{
    let zone = name.parse::<chrono_tz::Tz>().unwrap();
    let utc = chrono::DateTime::from_timestamp(secs, 0).unwrap();
    utc.with_timezone(&zone).offset().fix().local_minus_utc()
}

/// Calls `from_local_datetime` of a `chrono_tz::Tz`, and `single` on what it gives. An instant
/// that comes out is one at which the clocks of the zone are as far from UTC as the local time
/// is from it, and the nanoseconds stay. When a single one comes out is left to the tables of the
/// zone, and nothing is said of it.
#[verifier::external_body]
pub(crate) fn zone_to_utc(name: &str, secs: i64, nanos: u32) -> (r: Option<(i64, u32)>)
    requires
        zone_known(name@),
        valid_time(secs, nanos),
    ensures
        r == zone_utc(name@, secs, nanos),
        r matches Some(t) ==> valid_time(t.0, t.1) && t.1 == nanos && zone_offset(name@, t.0)
            == secs - t.0,
{
    let zone = name.parse::<chrono_tz::Tz>().unwrap();
    let local = chrono::DateTime::from_timestamp(secs, 0).unwrap().naive_utc();
    let local = local.with_nanosecond(nanos).unwrap();
    match zone.from_local_datetime(&local).single() {
        Some(t) => {
            let t = t.with_timezone(&chrono::Utc);
            Some((t.timestamp(), t.timestamp_subsec_nanos()))
        },
        None => None,
    }
}

/// Calls `chrono::DateTime::parse_from_rfc3339`.
#[verifier::external_body]
pub(crate) fn parse_rfc3339(text: &str) -> (r: Option<(i64, u32)>)
    ensures
        r == rfc3339_instant(text@),
        r matches Some(t) ==> valid_time(t.0, t.1),
{
    match chrono::DateTime::parse_from_rfc3339(text) {
        Ok(t) => {
            let t = t.with_timezone(&chrono::Utc);
            Some((t.timestamp(), t.timestamp_subsec_nanos()))
        },
        Err(_) => None,
    }
}

/// Calls `chrono::NaiveDateTime::parse_from_str`.
#[verifier::external_body]
pub(crate) fn parse_datetime(text: &str, format: &str) -> (r: Option<(i64, u32)>)
    requires
        local_format(format@),
    ensures
        r == datetime_in_format(text@, format@),
        r matches Some(t) ==> valid_time(t.0, t.1),
{
    match chrono::NaiveDateTime::parse_from_str(text, format) {
        Ok(t) => {
            let t = t.and_utc();
            Some((t.timestamp(), t.timestamp_subsec_nanos()))
        },
        Err(_) => None,
    }
}

/// Calls `chrono::NaiveDate::parse_from_str`, which reads the whole text by the format and
/// keeps the day alone, as its number counted from 0001-01-01.
#[verifier::external_body]
pub(crate) fn parse_date(text: &str, format: &str) -> (r: Option<i32>)
    requires
        local_format(format@),
    ensures
        r == date_in_format(text@, format@),
        r matches Some(day) ==> MIN_DAY <= day <= MAX_DAY,
{
    match chrono::NaiveDate::parse_from_str(text, format) {
        Ok(day) => Some(day.num_days_from_ce()),
        Err(_) => None,
    }
}

/// Calls `with_timezone` with a `chrono::FixedOffset` on an instant, and `to_rfc3339` on what
/// it gives. The text ends in the offset, and reads back as the time it shows where the offset is
/// in whole minutes and the wall clock reads a year of four digits.
#[verifier::external_body]
pub(crate) fn write_rfc3339(secs: i64, nanos: u32, offset: i32) -> (r: String)
    requires
        valid_time(secs, nanos),
        valid_offset(offset as int),
    ensures
        r@ == rfc3339_text(secs, nanos, offset),
        offset_suffix(offset as int).is_suffix_of(r@),
        four_digit_year(secs + offset) && offset as int % 60 == 0 ==> rfc3339_instant(r@) == Some(
            shown_time((secs, nanos)),
        ),
{
    let zone = chrono::FixedOffset::east_opt(offset).unwrap();
    let utc = chrono::DateTime::from_timestamp(secs, 0).unwrap().naive_utc();
    let utc = utc.with_nanosecond(nanos).unwrap().and_utc();
    utc.with_timezone(&zone).to_rfc3339()
}

/// Calls `to_rfc3339_opts` on an instant in UTC, for whole seconds and a `Z`. The text is the same
/// for all instants of which a clock shows the same second. It ends in `Z`, and reads back as that
/// second where the year has four digits.
#[verifier::external_body]
pub(crate) fn write_rfc3339_utc(secs: i64, nanos: u32) -> (r: String)
    requires
        valid_time(secs, nanos),
    ensures
        r@ == rfc3339_utc_text(secs, nanos),
        r@ == rfc3339_utc_text(shown_second((secs, nanos)).0, shown_second((secs, nanos)).1),
        r@.len() > 0 && r@.last() == 'Z',
        four_digit_year(secs as int) ==> rfc3339_instant(r@) == Some(shown_second((secs, nanos))),
{
    let utc = chrono::DateTime::from_timestamp(secs, 0).unwrap().naive_utc();
    let utc = utc.with_nanosecond(nanos).unwrap().and_utc();
    utc.to_rfc3339_opts(chrono::SecondsFormat::Secs, true)
}

/// The calendar holds whole days, from day -95,746,129 to day 95,745,399 counted from 0001-01-01
/// as day 1, with every second of each of them and one second more for a leap second.
pub proof fn the_calendar_holds_whole_days(secs: i64, nanos: u32)
    ensures
        in_calendar(secs as int) <==> -95_746_129 <= secs as int / 86_400 + 719_163 <= 95_745_399,
        valid_time(secs, nanos) <==> (-95_746_129 <= secs as int / 86_400 + 719_163 <= 95_745_399
            && nanos as int / 1_000_000_000 <= 1),
{
}

/// A clock can be less than 24 hours from UTC.
pub proof fn offsets_are_less_than_a_day(seconds: int)
    ensures
        valid_offset(seconds) <==> -24 * 3600 < seconds < 24 * 3600,
{
}

/// The days of the years from 0 to 9999 are those from 719,528 days before 1970-01-01 to
/// 2,932,896 days after it.
pub proof fn years_of_four_digits(local_secs: int)
    ensures
        four_digit_year(local_secs) <==> -719_528 <= local_secs / 86_400 <= 2_932_896,
{
}

/// A clock shows the time itself, nanosecond for nanosecond: only a second that is counted past
/// its end without ending a minute is shown as the one after it.
pub proof fn clocks_show_the_time(time: (i64, u32))
    requires
        valid_time(time.0, time.1),
    ensures
        ({
            let shown = shown_time(time);
            &&& shown.0 * 1_000_000_000 + shown.1 == time.0 * 1_000_000_000 + time.1
            &&& shown.1 < 1_000_000_000 || (shown.0 as int % 60 == 59 && shown.1 < 2_000_000_000)
            &&& (time.1 < 1_000_000_000 || time.0 as int % 60 == 59) ==> shown == time
        }),
{
}

/// A clock without fractions lags less than a second behind one with them, and shows whole
/// seconds.
pub proof fn clocks_show_whole_seconds(time: (i64, u32))
    requires
        valid_time(time.0, time.1),
    ensures
        ({
            let shown = shown_second(time);
            let lag = (time.0 * 1_000_000_000 + time.1) - (shown.0 * 1_000_000_000 + shown.1);
            &&& 0 <= lag < 1_000_000_000
            &&& shown.1 == 0 || (shown.1 == 1_000_000_000 && shown.0 as int % 60 == 59)
            &&& shown.0 == shown_time(time).0
        }),
{
}

/// Two digits are digits, and stand for the number.
proof fn lemma_two_digits_value(n: int)
    requires
        0 <= n < 100,
    ensures
        two_digits(n).len() == 2,
        all_digits(two_digits(n)),
        digits_value(two_digits(n)) == n,
{
    let s = two_digits(n);
    digits_stand_for_their_place(n / 10);
    digits_stand_for_their_place(n % 10);
    reveal_strlit("0123456789");
    assert(s.drop_last() =~= seq![s[0]]);
    assert(s.drop_last().drop_last() =~= Seq::<char>::empty());
    reveal_with_fuel(digits_value, 3);
}

/// The offset at the end of a written time is a sign, two digits of hours, a colon and two digits
/// of minutes, on the right side of UTC and nearer to the offset than any other whole minute: a
/// half minute counts as a whole one.
pub proof fn shown_offsets_are_near(seconds: int)
    requires
        -86_400 < seconds < 86_400,
    ensures
        ({
            let text = offset_suffix(seconds);
            let hours = digits_value(text.subrange(1, 3));
            let minutes = digits_value(text.subrange(4, 6));
            let distance = if seconds < 0 {
                -seconds
            } else {
                seconds
            };
            &&& text.len() == 6
            &&& text[0] == (if seconds < 0 {
                '-'
            } else {
                '+'
            })
            &&& text[3] == ':'
            &&& all_digits(text.subrange(1, 3))
            &&& all_digits(text.subrange(4, 6))
            &&& 0 <= minutes < 60
            &&& -30 < hours * 3600 + minutes * 60 - distance <= 30
        }),
{
    let minutes = if seconds < 0 {
        (30 - seconds) / 60
    } else {
        (30 + seconds) / 60
    };
    let text = offset_suffix(seconds);
    lemma_two_digits_value(minutes / 60);
    lemma_two_digits_value(minutes % 60);
    assert(text.subrange(1, 3) =~= two_digits(minutes / 60));
    assert(text.subrange(4, 6) =~= two_digits(minutes % 60));
}

} // verus!
