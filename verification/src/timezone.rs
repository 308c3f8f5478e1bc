//! Time zones: reading their names, reading times in them and writing times in them.

use vstd::prelude::*;
use vstd::string::*;
use crate::calendar::{
    date_in_format, datetime_in_format, fixed_to_utc, four_digit_year, in_calendar, is_zone,
    local_format, offset_of_zone, offset_suffix, parse_date, parse_datetime, parse_rfc3339,
    rfc3339_instant, rfc3339_text, rfc3339_utc_text, shown_second, shown_time, valid_offset,
    valid_time, write_rfc3339, write_rfc3339_utc, zone_known, zone_offset, zone_to_utc, zone_utc,
};
use crate::moment::{start_of_day, NaiveDate, NaiveDateTime, UtcTime};
use crate::offset::{
    offset_of, offset_seconds, offset_text, offset_text_is_read, parse_offset, FixedOffset,
};
use crate::text::{concat, eq_ignore_ascii_case, same_ignoring_case, to_chars};

verus! {

/// A zone of the time zone database.
#[derive(Debug)]
pub struct Tz {
    name: String,
}

impl View for Tz {
    type V = Seq<char>;

    closed spec fn view(&self) -> Seq<char> {
        self.name@
    }
}

impl Tz {
    #[verifier::type_invariant]
    spec fn known(&self) -> bool {
        zone_known(self.name@)
    }

    /// The zone of this name, if there is one.
    pub fn lookup(name: &str) -> (r: Option<Tz>)
        ensures
            r is Some <==> zone_known(name@),
            r matches Some(zone) ==> zone@ == name@,
    {
        if is_zone(name) {
            Some(Tz { name: name.to_string() })
        } else {
            None
        }
    }

    /// The name of the zone.
    pub fn name(&self) -> (r: &str)
        ensures
            r@ == self@,
            zone_known(r@),
    {
        proof {
            use_type_invariant(self);
        }
        self.name.as_str()
    }
}

impl Clone for Tz {
    fn clone(&self) -> (r: Self)
        ensures
            r@ == self@,
    {
        proof {
            use_type_invariant(self);
        }
        Tz { name: self.name.clone() }
    }
}

/// Where a time is told: at a fixed offset from UTC, or in a zone of the database.
#[derive(Debug)]
pub enum ParsedTimezone {
    Fixed(FixedOffset),
    Named(Tz),
}

/// What a [`ParsedTimezone`] stands for: an offset in seconds, or the name of a zone.
pub enum Zone {
    Fixed(int),
    Named(Seq<char>),
}

impl View for ParsedTimezone {
    type V = Zone;

    open spec fn view(&self) -> Zone {
        match self {
            ParsedTimezone::Fixed(offset) => Zone::Fixed(offset@),
            ParsedTimezone::Named(zone) => Zone::Named(zone@),
        }
    }
}

impl Clone for ParsedTimezone {
    fn clone(&self) -> (r: Self)
        ensures
            r@ == self@,
    {
        match self {
            ParsedTimezone::Fixed(offset) => ParsedTimezone::Fixed(*offset),
            ParsedTimezone::Named(zone) => ParsedTimezone::Named(zone.clone()),
        }
    }
}

/// How far the clocks of a zone are from UTC at an instant.
pub open spec fn offset_at(zone: Zone, secs: i64) -> int {
    match zone {
        Zone::Fixed(offset) => offset,
        Zone::Named(name) => zone_offset(name, secs) as int,
    }
}

/// Whether the clocks of a zone read a local time at an instant.
pub open spec fn clocks_read(zone: Zone, utc: (i64, u32), local: (i64, u32)) -> bool {
    utc.0 + offset_at(zone, utc.0) == local.0 && utc.1 == local.1
}

/// The instant at which the clocks of a zone read a local time, where the zone gives a single one.
/// At a fixed offset it is the local time minus the offset.
pub open spec fn local_to_utc(zone: Zone, local: (i64, u32)) -> Option<(i64, u32)> {
    match zone {
        Zone::Fixed(offset) => if in_calendar(local.0 - offset) {
            Some(((local.0 - offset) as i64, local.1))
        } else {
            None
        },
        Zone::Named(name) => zone_utc(name, local.0, local.1),
    }
}

/// How an instant is written in a zone: in whole seconds with a `Z` at offset zero, else with
/// its fraction and the offset of the zone at that instant.
pub open spec fn time_text(zone: Zone, utc: (i64, u32)) -> Seq<char> {
    if zone == Zone::Fixed(0) {
        rfc3339_utc_text(shown_second(utc).0, shown_second(utc).1)
    } else {
        rfc3339_text(utc.0, utc.1, offset_at(zone, utc.0) as i32)
    }
}

/// Whether a text ends in the offset at which it was written: `Z` at offset zero, else sign,
/// hours and minutes.
pub open spec fn shows_offset(zone: Zone, utc: (i64, u32), text: Seq<char>) -> bool {
    if zone == Zone::Fixed(0) {
        text.len() > 0 && text.last() == 'Z'
    } else {
        offset_suffix(offset_at(zone, utc.0)).is_suffix_of(text)
    }
}

/// What is left of an instant once it is written in a zone: what a clock shows of it, and at
/// offset zero without its fraction.
pub open spec fn written_instant(zone: Zone, utc: (i64, u32)) -> (i64, u32) {
    if zone == Zone::Fixed(0) {
        shown_second(utc)
    } else {
        shown_time(utc)
    }
}

/// Whether an instant can be written in a zone as RFC 3339 text that reads back: the wall clock
/// reads a year from 0 to 9999, and the offset is in whole minutes.
pub open spec fn writable(zone: Zone, utc: (i64, u32)) -> bool {
    &&& four_digit_year(utc.0 + offset_at(zone, utc.0))
    &&& offset_at(zone, utc.0) % 60 == 0
}

/// Whether a text, read again in any zone, stands for the instant that was written.
pub open spec fn reads_back(zone: Zone, utc: (i64, u32), text: Seq<char>) -> bool {
    writable(zone, utc) ==> forall|other: Zone| #[trigger] time_of(text, other) == Some(
        written_instant(zone, utc),
    )
}

impl ParsedTimezone {
    /// Writes an instant as RFC 3339 text in this zone.
    pub fn format_utc(&self, utc: &UtcTime) -> (r: String)
        ensures
            r@ == time_text(self@, utc@),
            shows_offset(self@, utc@, r@),
            reads_back(self@, utc@, r@),
    {
        if let ParsedTimezone::Fixed(offset) = self {
            if offset.local_minus_utc() == 0 {
                return write_rfc3339_utc(utc.secs(), utc.nanos());
            }
        }
        let offset: i32 = self.offset_seconds_at(utc);
        write_rfc3339(utc.secs(), utc.nanos(), offset)
    }

    /// The instant at which the clocks of this zone read `naive`, where it gives a single one.
    pub fn local_datetime_to_utc(&self, naive: &NaiveDateTime) -> (r: Option<UtcTime>)
        ensures
            r is Some <==> local_to_utc(self@, naive@) is Some,
            r matches Some(utc) ==> local_to_utc(self@, naive@) == Some(utc@),
            r matches Some(utc) ==> clocks_read(self@, utc@, naive@),
    {
        let utc: Option<(i64, u32)> = match self {
            ParsedTimezone::Fixed(offset) => fixed_to_utc(
                offset.local_minus_utc(),
                naive.secs(),
                naive.nanos(),
            ),
            ParsedTimezone::Named(zone) => zone_to_utc(zone.name(), naive.secs(), naive.nanos()),
        };
        match utc {
            Some((secs, nanos)) => UtcTime::new(secs, nanos),
            None => None,
        }
    }

    /// How far the clocks of this zone are from UTC at an instant.
    pub fn offset_seconds_at(&self, utc: &UtcTime) -> (r: i32)
        ensures
            r == offset_at(self@, utc@.0),
            valid_offset(r as int),
    {
        match self {
            ParsedTimezone::Fixed(offset) => offset.local_minus_utc(),
            ParsedTimezone::Named(zone) => offset_of_zone(zone.name(), utc.secs()),
        }
    }
}

/// What a time zone text stands for, given the zone that the database has under it: UTC for
/// `UTC` and `GMT` in any case, an offset after a sign, else that zone.
pub open spec fn zone_of(tz: Seq<char>, found: Option<Seq<char>>) -> Result<Zone, Seq<char>> {
    if same_ignoring_case(tz, "UTC"@) || same_ignoring_case(tz, "GMT"@) {
        Ok(Zone::Fixed(0))
    } else if tz.len() > 0 && (tz[0] == '+' || tz[0] == '-') {
        match offset_of(tz) {
            Ok(offset) => Ok(Zone::Fixed(offset)),
            Err(message) => Err(message),
        }
    } else {
        match found {
            Some(name) => Ok(Zone::Named(name)),
            None => Err("Unknown timezone: "@ + tz),
        }
    }
}

/// The entry of the time zone database under a text.
pub open spec fn database_zone(tz: Seq<char>) -> Option<Seq<char>> {
    if zone_known(tz) {
        Some(tz)
    } else {
        None
    }
}

/// A time zone that was read, or why it could not be.
pub open spec fn zone_result(r: Result<ParsedTimezone, String>) -> Result<Zone, Seq<char>> {
    match r {
        Ok(zone) => Ok(zone@),
        Err(message) => Err(message@),
    }
}

/// Reads a time zone text, given the zone that the database has under it.
pub fn select_timezone(tz: &str, found: Option<Tz>) -> (r: Result<ParsedTimezone, String>)
    ensures
        zone_result(r) == zone_of(
            tz@,
            match found {
                Some(zone) => Some(zone@),
                None => None,
            },
        ),
{
    if eq_ignore_ascii_case(tz, "UTC") || eq_ignore_ascii_case(tz, "GMT") {
        if let Some(offset) = FixedOffset::east_opt(0) {
            return Ok(ParsedTimezone::Fixed(offset));
        }
    }
    let chars: Vec<char> = to_chars(tz);
    if chars.len() > 0 && (chars[0] == '+' || chars[0] == '-') {
        return match parse_offset(tz) {
            Ok(offset) => Ok(ParsedTimezone::Fixed(offset)),
            Err(message) => Err(message),
        };
    }
    match found {
        Some(zone) => Ok(ParsedTimezone::Named(zone)),
        None => Err(concat("Unknown timezone: ", tz)),
    }
}

/// Reads the name of a time zone of the database, `UTC`, `GMT` or an offset from UTC.
pub fn parse_timezone(tz: &str) -> (r: Result<ParsedTimezone, String>)
    ensures
        zone_result(r) == zone_of(tz@, database_zone(tz@)),
{
    let found: Option<Tz> = Tz::lookup(tz);
    select_timezone(tz, found)
}

/// What a text was read as in one format: as a local time, and as a day.
#[derive(Clone, Copy, Debug)]
pub struct Reading {
    pub datetime: Option<NaiveDateTime>,
    pub date: Option<NaiveDate>,
}

impl View for Reading {
    type V = (Option<(i64, u32)>, Option<i32>);

    open spec fn view(&self) -> (Option<(i64, u32)>, Option<i32>) {
        (
            match self.datetime {
                Some(t) => Some(t@),
                None => None,
            },
            match self.date {
                Some(day) => Some(day@),
                None => None,
            },
        )
    }
}

/// The local time that a reading gives: its time, or the start of its day where it has no time.
pub open spec fn local_of(reading: (Option<(i64, u32)>, Option<i32>)) -> Option<(i64, u32)> {
    match reading {
        (Some(local), _) => Some(local),
        (None, Some(day)) => Some(start_of_day(day)),
        (None, None) => None,
    }
}

/// The local time that the first reading which gives one gives.
pub open spec fn first_local(readings: Seq<(Option<(i64, u32)>, Option<i32>)>) -> Option<(i64, u32)>
    decreases readings.len(),
{
    if readings.len() == 0 {
        None
    } else {
        match local_of(readings[0]) {
            Some(local) => Some(local),
            None => first_local(readings.skip(1)),
        }
    }
}

impl Reading {
    /// The local time that this reading gives.
    pub fn local(&self) -> (r: Option<NaiveDateTime>)
        ensures
            r is Some <==> local_of(self@) is Some,
            r matches Some(local) ==> local_of(self@) == Some(local@),
    {
        match (self.datetime, self.date) {
            (Some(local), _) => Some(local),
            (None, Some(day)) => Some(day.midnight()),
            (None, None) => None,
        }
    }
}

/// What a text reads as in a format.
pub open spec fn reading_of(text: Seq<char>, format: Seq<char>) -> (
    Option<(i64, u32)>,
    Option<i32>,
) {
    (datetime_in_format(text, format), date_in_format(text, format))
}

/// What a text reads as in the formats of a local time: date and time with a space or a `T`
/// between them, and a date alone.
pub open spec fn readings_of(text: Seq<char>) -> Seq<(Option<(i64, u32)>, Option<i32>)> {
    seq![
        reading_of(text, "%Y-%m-%d %H:%M:%S"@),
        reading_of(text, "%Y-%m-%dT%H:%M:%S"@),
        reading_of(text, "%Y-%m-%d"@),
    ]
}

/// The instant that a text stands for in a zone, from what it was read as: RFC 3339 text stands
/// for its instant whatever the zone, other text for the instant at which the clocks of the zone
/// read what is written, where the zone gives a single one.
pub open spec fn instant_from(
    zone: Zone,
    rfc3339: Option<(i64, u32)>,
    readings: Seq<(Option<(i64, u32)>, Option<i32>)>,
) -> Option<(i64, u32)> {
    match (rfc3339, first_local(readings)) {
        (Some(utc), _) => Some(utc),
        (None, Some(local)) => local_to_utc(zone, local),
        (None, None) => None,
    }
}

/// The instant that a text stands for in a zone.
pub open spec fn time_of(text: Seq<char>, zone: Zone) -> Option<(i64, u32)> {
    instant_from(zone, rfc3339_instant(text), readings_of(text))
}

/// Reads a text in one format.
fn read_in_format(text: &str, format: &str) -> (r: Reading)
    requires
        local_format(format@),
    ensures
        r@ == reading_of(text@, format@),
{
    let datetime: Option<NaiveDateTime> = match parse_datetime(text, format) {
        Some((secs, nanos)) => NaiveDateTime::new(secs, nanos),
        None => None,
    };
    let date: Option<NaiveDate> = match parse_date(text, format) {
        Some(day) => NaiveDate::from_num_days_from_ce(day),
        None => None,
    };
    Reading { datetime, date }
}

/// Finds the instant that a text stands for in a zone, from what it was read as.
pub fn select_time(
    time_str: &str,
    timezone: &ParsedTimezone,
    rfc3339: Option<UtcTime>,
    readings: &Vec<Reading>,
) -> (r: Result<UtcTime, String>)
    ensures
        ({
            let views = readings@.map_values(|reading: Reading| reading@);
            let found = instant_from(
                timezone@,
                match rfc3339 {
                    Some(utc) => Some(utc@),
                    None => None,
                },
                views,
            );
            match r {
                Ok(utc) => {
                    &&& found == Some(utc@)
                    &&& rfc3339 is None ==> (first_local(views) matches Some(local) && clocks_read(
                        timezone@,
                        utc@,
                        local,
                    ))
                },
                Err(message) => found is None && message@ == "unrecognized time format: "@
                    + time_str@,
            }
        }),
{
    if let Some(utc) = rfc3339 {
        return Ok(utc);
    }
    let ghost views = readings@.map_values(|reading: Reading| reading@);
    let mut i: usize = 0;
    assert(views.skip(0) =~= views);
    while i < readings.len()
        invariant
            rfc3339 is None,
            views == readings@.map_values(|reading: Reading| reading@),
            i <= readings@.len(),
            first_local(views) == first_local(views.skip(i as int)),
        decreases readings@.len() - i,
    {
        assert(views.skip(i as int)[0] == readings@[i as int]@);
        assert(views.skip(i as int).skip(1) =~= views.skip(i + 1));
        if let Some(local) = readings[i].local() {
            return match timezone.local_datetime_to_utc(&local) {
                Some(utc) => Ok(utc),
                None => Err(concat("unrecognized time format: ", time_str)),
            };
        }
        i = i + 1;
    }
    Err(concat("unrecognized time format: ", time_str))
}

/// Reads a time: RFC 3339 text, or a local time of the zone as date and time or as a date.
pub fn parse_time_in_timezone(time_str: &str, timezone: &ParsedTimezone) -> (r: Result<
    UtcTime,
    String,
>)
    ensures
        match r {
            Ok(utc) => {
                &&& time_of(time_str@, timezone@) == Some(utc@)
                &&& rfc3339_instant(time_str@) is None ==> (first_local(readings_of(time_str@))
                    matches Some(local) && clocks_read(timezone@, utc@, local))
            },
            Err(message) => time_of(time_str@, timezone@) is None && message@
                == "unrecognized time format: "@ + time_str@,
        },
{
    let rfc3339: Option<UtcTime> = match parse_rfc3339(time_str) {
        Some((secs, nanos)) => UtcTime::new(secs, nanos),
        None => None,
    };
    let mut readings: Vec<Reading> = Vec::new();
    readings.push(read_in_format(time_str, "%Y-%m-%d %H:%M:%S"));
    readings.push(read_in_format(time_str, "%Y-%m-%dT%H:%M:%S"));
    readings.push(read_in_format(time_str, "%Y-%m-%d"));
    assert(readings@.map_values(|reading: Reading| reading@) =~= readings_of(time_str@));
    select_time(time_str, timezone, rfc3339, &readings)
}

/// `UTC` and `GMT`, in any mix of upper and lower case, stand for offset zero, whatever the
/// database has under them.
pub proof fn utc_names_are_offset_zero(tz: Seq<char>, found: Option<Seq<char>>)
    requires
        same_ignoring_case(tz, "UTC"@) || same_ignoring_case(tz, "GMT"@),
    ensures
        zone_of(tz, found) == Ok::<Zone, Seq<char>>(Zone::Fixed(0)),
{
}

/// A sign, two digits of hours, a colon and two digits of minutes stand for that offset,
/// whatever the database has under it.
pub proof fn offset_names_are_their_offset(
    sign: char,
    hours: int,
    minutes: int,
    found: Option<Seq<char>>,
)
    requires
        sign == '+' || sign == '-',
        0 <= hours < 24,
        0 <= minutes < 60,
    ensures
        zone_of(offset_text(sign, hours, minutes), found) == Ok::<Zone, Seq<char>>(
            Zone::Fixed(offset_seconds(sign, hours, minutes)),
        ),
{
    reveal_strlit("UTC");
    reveal_strlit("GMT");
    offset_text_is_read(sign, hours, minutes);
    assert(offset_text(sign, hours, minutes)[0] == sign);
}

/// RFC 3339 text carries its own offset: it stands for the same instant in every zone.
pub proof fn rfc3339_needs_no_zone(text: Seq<char>, zone: Zone, other: Zone)
    requires
        rfc3339_instant(text) is Some,
    ensures
        time_of(text, zone) == time_of(text, other),
        time_of(text, zone) == rfc3339_instant(text),
{
}

/// Text with a date and a time of day, and no offset, stands for what the zone gives for just that
/// local time: where the zone does not give a single instant for it, the text stands for none, and
/// not for another time of that day.
pub proof fn written_time_of_day_is_kept(text: Seq<char>, zone: Zone, local: (i64, u32))
    requires
        rfc3339_instant(text) is None,
        datetime_in_format(text, "%Y-%m-%d %H:%M:%S"@) == Some(local) || (reading_of(
            text,
            "%Y-%m-%d %H:%M:%S"@,
        ) == (None::<(i64, u32)>, None::<i32>) && datetime_in_format(text, "%Y-%m-%dT%H:%M:%S"@)
            == Some(local)),
    ensures
        time_of(text, zone) == local_to_utc(zone, local),
{
    let readings = readings_of(text);
    assert(readings[0] == reading_of(text, "%Y-%m-%d %H:%M:%S"@));
    assert(readings.skip(1)[0] == reading_of(text, "%Y-%m-%dT%H:%M:%S"@));
    reveal_with_fuel(first_local, 3);
}

/// At a fixed offset every local time names one instant, unless that leaves the calendar, and
/// two clocks that read the same are apart by the difference of their offsets.
pub proof fn fixed_offsets_differ_by_their_distance(local: (i64, u32), offset: int, other: int)
    requires
        in_calendar(local.0 - offset),
        in_calendar(local.0 - other),
    ensures
        match (local_to_utc(Zone::Fixed(offset), local), local_to_utc(Zone::Fixed(other), local)) {
            (Some(utc), Some(other_utc)) => utc.0 - other_utc.0 == other - offset && utc.1
                == other_utc.1,
            _ => false,
        },
{
}

/// `UTC` and `GMT` are the same, but for case, as their three letters in either case and as
/// nothing else.
proof fn lemma_utc_letters(tz: Seq<char>)
    ensures
        same_ignoring_case(tz, "UTC"@) <==> (tz.len() == 3 && (tz[0] == 'U' || tz[0] == 'u') && (
        tz[1] == 'T' || tz[1] == 't') && (tz[2] == 'C' || tz[2] == 'c')),
        same_ignoring_case(tz, "GMT"@) <==> (tz.len() == 3 && (tz[0] == 'G' || tz[0] == 'g') && (
        tz[1] == 'M' || tz[1] == 'm') && (tz[2] == 'T' || tz[2] == 't')),
{
    reveal_strlit("UTC");
    reveal_strlit("GMT");
}

/// The letters of `UTC` or `GMT`, each in either case, stand for offset zero.
pub proof fn utc_letters_stand_for_utc(tz: Seq<char>, found: Option<Seq<char>>)
    requires
        tz.len() == 3,
        ((tz[0] == 'U' || tz[0] == 'u') && (tz[1] == 'T' || tz[1] == 't') && (tz[2] == 'C' || tz[2]
            == 'c')) || ((tz[0] == 'G' || tz[0] == 'g') && (tz[1] == 'M' || tz[1] == 'm') && (tz[2]
            == 'T' || tz[2] == 't')),
    ensures
        zone_of(tz, found) == Ok::<Zone, Seq<char>>(Zone::Fixed(0)),
{
    lemma_utc_letters(tz);
}

/// A text with a sign in front stands for the offset that it is read as, and is refused for the
/// reason for which that is.
pub proof fn signed_texts_stand_for_offsets(tz: Seq<char>, found: Option<Seq<char>>)
    requires
        tz.len() > 0,
        tz[0] == '+' || tz[0] == '-',
    ensures
        offset_of(tz) matches Ok(seconds) ==> zone_of(tz, found) == Ok::<Zone, Seq<char>>(
            Zone::Fixed(seconds),
        ),
        offset_of(tz) matches Err(reason) ==> zone_of(tz, found) == Err::<Zone, Seq<char>>(reason),
{
    lemma_utc_letters(tz);
}

/// A text that is neither `UTC`, `GMT` nor an offset stands for the very zone that the database has
/// under it: its offset is told, its local times are read and times are written with it. Where
/// the database has none, the text is refused by name.
pub proof fn database_zones_stand_for_themselves(
    tz: Seq<char>,
    utc: (i64, u32),
    local: (i64, u32),
)
    requires
        !(tz.len() == 3 && (tz[0] == 'U' || tz[0] == 'u') && (tz[1] == 'T' || tz[1] == 't') && (
        tz[2] == 'C' || tz[2] == 'c')),
        !(tz.len() == 3 && (tz[0] == 'G' || tz[0] == 'g') && (tz[1] == 'M' || tz[1] == 'm') && (
        tz[2] == 'T' || tz[2] == 't')),
        tz.len() > 0 ==> tz[0] != '+' && tz[0] != '-',
    ensures
        zone_known(tz) ==> zone_of(tz, database_zone(tz)) == Ok::<Zone, Seq<char>>(Zone::Named(tz)),
        !zone_known(tz) ==> zone_of(tz, database_zone(tz)) == Err::<Zone, Seq<char>>(
            "Unknown timezone: "@ + tz,
        ),
        offset_at(Zone::Named(tz), utc.0) == zone_offset(tz, utc.0),
        local_to_utc(Zone::Named(tz), local) == zone_utc(tz, local.0, local.1),
        time_text(Zone::Named(tz), utc) == rfc3339_text(utc.0, utc.1, zone_offset(tz, utc.0)),
        clocks_read(Zone::Named(tz), utc, local) <==> utc.0 + zone_offset(tz, utc.0) == local.0
            && utc.1 == local.1,
{
    lemma_utc_letters(tz);
}

/// At a fixed offset the clocks are that far from UTC at every instant: a local time is the
/// instant and the offset, and a time is written with the offset, or with a `Z` where there is
/// none.
pub proof fn fixed_offsets_stay_as_they_are(
    seconds: int,
    utc: (i64, u32),
    local: (i64, u32),
)
    requires
        -86_400 < seconds < 86_400,
    ensures
        offset_at(Zone::Fixed(seconds), utc.0) == seconds,
        seconds != 0 ==> time_text(Zone::Fixed(seconds), utc) == rfc3339_text(
            utc.0,
            utc.1,
            seconds as i32,
        ),
        seconds == 0 ==> time_text(Zone::Fixed(seconds), utc) == rfc3339_utc_text(
            shown_second(utc).0,
            shown_second(utc).1,
        ),
        local_to_utc(Zone::Fixed(seconds), local) is Some <==> -8_334_601_228_800 <= local.0
            - seconds <= 8_210_266_876_799,
        local_to_utc(Zone::Fixed(seconds), local) matches Some(found) ==> found.0 + seconds
            == local.0 && found.1 == local.1,
        clocks_read(Zone::Fixed(seconds), utc, local) <==> utc.0 + seconds == local.0 && utc.1
            == local.1,
{
}

/// A zone as it was read is the offset or the database zone that it holds, and a refusal its
/// reason.
pub proof fn parsed_zones_are_what_they_hold(
    offset: FixedOffset,
    zone: Tz,
    parsed: ParsedTimezone,
    reason: String,
)
    ensures
        ParsedTimezone::Fixed(offset)@ == Zone::Fixed(offset@),
        ParsedTimezone::Named(zone)@ == Zone::Named(zone@),
        zone_result(Ok(parsed)) == Ok::<Zone, Seq<char>>(parsed@),
        zone_result(Err(reason)) == Err::<Zone, Seq<char>>(reason@),
{
}

/// Text that is RFC 3339 stands for its instant. Other text stands for a local time: for the date
/// and the time of day where it is read as both, else for 00:00:00 of the date, in the first of
/// the formats in which it is read. It stands for nothing where it is read in none.
pub proof fn text_stands_for_what_is_written(text: Seq<char>, zone: Zone)
    ensures
        ({
            let spaced = "%Y-%m-%d %H:%M:%S"@;
            let joined = "%Y-%m-%dT%H:%M:%S"@;
            let dated = "%Y-%m-%d"@;
            match rfc3339_instant(text) {
                Some(utc) => time_of(text, zone) == Some(utc),
                None => if datetime_in_format(text, spaced) is Some {
                    time_of(text, zone) == local_to_utc(
                        zone,
                        datetime_in_format(text, spaced).unwrap(),
                    )
                } else if date_in_format(text, spaced) is Some {
                    time_of(text, zone) == local_to_utc(
                        zone,
                        (((date_in_format(text, spaced).unwrap() - 719_163) * 86_400) as i64, 0),
                    )
                } else if datetime_in_format(text, joined) is Some {
                    time_of(text, zone) == local_to_utc(
                        zone,
                        datetime_in_format(text, joined).unwrap(),
                    )
                } else if date_in_format(text, joined) is Some {
                    time_of(text, zone) == local_to_utc(
                        zone,
                        (((date_in_format(text, joined).unwrap() - 719_163) * 86_400) as i64, 0),
                    )
                } else if datetime_in_format(text, dated) is Some {
                    time_of(text, zone) == local_to_utc(
                        zone,
                        datetime_in_format(text, dated).unwrap(),
                    )
                } else if date_in_format(text, dated) is Some {
                    time_of(text, zone) == local_to_utc(
                        zone,
                        (((date_in_format(text, dated).unwrap() - 719_163) * 86_400) as i64, 0),
                    )
                } else {
                    time_of(text, zone) is None
                },
            }
        }),
{
    let readings = readings_of(text);
    assert(readings[0] == reading_of(text, "%Y-%m-%d %H:%M:%S"@));
    assert(readings.skip(1)[0] == reading_of(text, "%Y-%m-%dT%H:%M:%S"@));
    assert(readings.skip(1).skip(1)[0] == reading_of(text, "%Y-%m-%d"@));
    reveal_with_fuel(first_local, 4);
}

/// A date alone stands for the instant at which the clocks of the zone read 00:00:00 of that day,
/// which is a whole number of days after they read 1970-01-01T00:00:00.
pub proof fn a_date_alone_is_its_midnight(text: Seq<char>, zone: Zone, day: i32, midnight: i64)
    requires
        rfc3339_instant(text) is None,
        datetime_in_format(text, "%Y-%m-%d %H:%M:%S"@) is None,
        date_in_format(text, "%Y-%m-%d %H:%M:%S"@) is None,
        datetime_in_format(text, "%Y-%m-%dT%H:%M:%S"@) is None,
        date_in_format(text, "%Y-%m-%dT%H:%M:%S"@) is None,
        datetime_in_format(text, "%Y-%m-%d"@) is None,
        date_in_format(text, "%Y-%m-%d"@) == Some(day),
        midnight == (day - 719_163) * 86_400,
    ensures
        midnight as int % 86_400 == 0,
        time_of(text, zone) == local_to_utc(zone, (midnight, 0)),
        zone matches Zone::Fixed(seconds) ==> (time_of(text, zone) matches Some(utc) ==> utc.0
            == (day - 719_163) * 86_400 - seconds && utc.1 == 0),
{
    text_stands_for_what_is_written(text, zone);
}

/// Writing an instant loses less than a second of it, and nothing but at offset zero; what is
/// left is in whole seconds there.
pub proof fn writing_keeps_the_instant(zone: Zone, utc: (i64, u32))
    requires
        valid_time(utc.0, utc.1),
    ensures
        ({
            let left = written_instant(zone, utc);
            let lost = (utc.0 * 1_000_000_000 + utc.1) - (left.0 * 1_000_000_000 + left.1);
            &&& 0 <= lost < 1_000_000_000
            &&& zone != Zone::Fixed(0) ==> lost == 0
            &&& zone == Zone::Fixed(0) ==> left.1 == 0 || left.1 == 1_000_000_000
            &&& (utc.1 < 1_000_000_000 || utc.0 as int % 60 == 59) ==> left.0 == utc.0
        }),
{
}

/// A text that shows an offset ends in it: in `Z` at offset zero, else in the six characters of
/// the offset of the zone at the instant.
pub proof fn shown_offsets_end_the_text(zone: Zone, utc: (i64, u32), text: Seq<char>)
    requires
        shows_offset(zone, utc, text),
    ensures
        zone == Zone::Fixed(0) ==> text.len() > 0 && text[text.len() - 1] == 'Z',
        zone matches Zone::Fixed(seconds) ==> (-86_400 < seconds < 86_400 && seconds != 0
            ==> text.len() >= 6 && text.skip(text.len() - 6) == offset_suffix(seconds)),
        zone matches Zone::Named(name) ==> (-86_400 < zone_offset(name, utc.0) < 86_400
            ==> text.len() >= 6 && text.skip(text.len() - 6) == offset_suffix(
            zone_offset(name, utc.0) as int,
        )),
{
    if zone != Zone::Fixed(0) {
        let seconds = offset_at(zone, utc.0);
        assert(offset_suffix(seconds).len() == 6);
        assert(text.skip(text.len() - 6) =~= offset_suffix(seconds));
    }
}

/// A text that reads back does so for every instant whose year has four digits on the clocks of
/// the zone, where they are whole minutes from UTC, and whatever zone it is read in.
pub proof fn texts_that_read_back(zone: Zone, utc: (i64, u32), text: Seq<char>, other: Zone)
    requires
        reads_back(zone, utc, text),
        -719_528 <= (utc.0 + offset_at(zone, utc.0)) / 86_400 <= 2_932_896,
        offset_at(zone, utc.0) % 60 == 0,
    ensures
        time_of(text, other) == Some(written_instant(zone, utc)),
{
}

} // verus!
