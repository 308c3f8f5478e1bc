use mcp_servers::moment::{NaiveDate, NaiveDateTime, UtcTime};
use mcp_servers::offset::{parse_offset, FixedOffset};
use mcp_servers::timezone::{
    parse_time_in_timezone, parse_timezone, select_time, select_timezone, ParsedTimezone, Reading,
    Tz,
};

fn instant(text: &str) -> UtcTime {
    let parsed = chrono::DateTime::parse_from_rfc3339(text)
        .unwrap()
        .with_timezone(&chrono::Utc);
    UtcTime::new(parsed.timestamp(), parsed.timestamp_subsec_nanos()).unwrap()
}

fn zone(text: &str) -> ParsedTimezone {
    parse_timezone(text).unwrap()
}

/// The time `text`, read in `source`, as seconds and nanoseconds.
fn read(text: &str, source: &str) -> (i64, u32) {
    let utc = parse_time_in_timezone(text, &zone(source)).unwrap();
    (utc.secs(), utc.nanos())
}

fn pair(text: &str) -> (i64, u32) {
    let utc = instant(text);
    (utc.secs(), utc.nanos())
}

#[test]
fn test_parse_utc() {
    let timezone = parse_timezone("UTC").unwrap();
    let utc = instant("2025-06-21T16:00:00Z");
    assert_eq!(timezone.offset_seconds_at(&utc), 0);
}

#[test]
fn test_parse_gmt() {
    let timezone = parse_timezone("GMT").unwrap();
    let utc = instant("2025-06-21T16:00:00Z");
    assert_eq!(timezone.offset_seconds_at(&utc), 0);
}

#[test]
fn test_parse_dublin() {
    let timezone = parse_timezone("Europe/Dublin").unwrap();
    let utc = instant("2025-01-21T16:00:00Z");
    assert_eq!(timezone.offset_seconds_at(&utc), 0);
}

#[test]
fn test_parse_new_york() {
    let timezone = parse_timezone("America/New_York").unwrap();
    let summer = instant("2025-06-21T16:00:00Z");
    let winter = instant("2025-01-21T16:00:00Z");
    assert_eq!(timezone.offset_seconds_at(&summer), -4 * 3600);
    assert_eq!(timezone.offset_seconds_at(&winter), -5 * 3600);
}

#[test]
fn test_parse_tokyo() {
    let timezone = parse_timezone("Asia/Tokyo").unwrap();
    let utc = instant("2025-06-21T16:00:00Z");
    assert_eq!(timezone.offset_seconds_at(&utc), 9 * 3600);
}

#[test]
fn test_parse_fixed_offset_positive() {
    let offset = parse_offset("+05:30").unwrap();
    assert_eq!(offset.local_minus_utc(), 5 * 3600 + 30 * 60);
}

#[test]
fn test_parse_fixed_offset_negative() {
    let offset = parse_offset("-08:00").unwrap();
    assert_eq!(offset.local_minus_utc(), -8 * 3600);
}

#[test]
fn test_unknown_timezone() {
    let result = parse_timezone("Invalid/Timezone");
    assert!(result.is_err());
}

#[test]
fn unknown_timezone_is_named() {
    assert_eq!(
        parse_timezone("Invalid/Timezone").unwrap_err(),
        "Unknown timezone: Invalid/Timezone"
    );
    assert_eq!(parse_timezone("").unwrap_err(), "Unknown timezone: ");
    assert_eq!(
        parse_timezone("america/new_york").unwrap_err(),
        "Unknown timezone: america/new_york"
    );
}

#[test]
fn every_usual_offset_is_read() {
    for hours in 0..24i32 {
        for minutes in 0..60i32 {
            let seconds = hours * 3600 + minutes * 60;
            let east = format!("+{:02}:{:02}", hours, minutes);
            let west = format!("-{:02}:{:02}", hours, minutes);
            assert_eq!(parse_offset(&east).unwrap().local_minus_utc(), seconds);
            assert_eq!(parse_offset(&west).unwrap().local_minus_utc(), -seconds);
        }
    }
}

#[test]
fn offset_fields_are_plain_integers() {
    assert_eq!(parse_offset("+5:3").unwrap().local_minus_utc(), 18_180);
    assert_eq!(parse_offset("+0005:030").unwrap().local_minus_utc(), 19_800);
    assert_eq!(parse_offset("+-5:30").unwrap().local_minus_utc(), -16_200);
    assert_eq!(parse_offset("-+5:-30").unwrap().local_minus_utc(), -16_200);
    assert_eq!(parse_offset("+00:1439").unwrap().local_minus_utc(), 86_340);
    assert_eq!(parse_offset("--0:-0").unwrap().local_minus_utc(), 0);
}

#[test]
fn offset_without_a_sign_is_refused() {
    for text in ["", "05:30", "Z", "\u{2212}05:00"] {
        assert_eq!(
            parse_offset(text).unwrap_err(),
            "Offset must start with + or -"
        );
    }
}

#[test]
fn offset_without_two_fields_is_refused() {
    for text in ["+", "-", "+0530", "+05:30:00", "-::"] {
        assert_eq!(
            parse_offset(text).unwrap_err(),
            "Offset must be in format +HH:MM or -HH:MM"
        );
    }
}

#[test]
fn offset_fields_that_are_no_numbers_are_refused() {
    for text in ["+:", "+aa:00", "+ 5:00", "+--5:00", "+2147483648:00", "+-2147483649:00"] {
        assert_eq!(parse_offset(text).unwrap_err(), "Invalid hours in offset");
    }
    for text in ["+05:", "-05:x", "+05:+", "+05:3 ", "+00:99999999999999999999"] {
        assert_eq!(parse_offset(text).unwrap_err(), "Invalid minutes in offset");
    }
}

#[test]
fn offset_of_a_day_or_more_is_refused() {
    for text in ["+24:00", "-24:00", "+23:60", "+1000000:00", "-2147483647:2147483647"] {
        assert_eq!(
            parse_offset(text).unwrap_err(),
            format!("Offset out of range: {}", text)
        );
    }
    assert_eq!(parse_offset("+-2147483648:00").unwrap_err(), "Offset out of range: +-2147483648:00");
}

#[test]
fn fixed_offsets_are_less_than_a_day() {
    assert_eq!(FixedOffset::east_opt(86_399).unwrap().local_minus_utc(), 86_399);
    assert_eq!(FixedOffset::east_opt(-86_399).unwrap().local_minus_utc(), -86_399);
    assert!(FixedOffset::east_opt(86_400).is_none());
    assert!(FixedOffset::east_opt(-86_400).is_none());
}

#[test]
fn utc_names_in_any_case_are_offset_zero() {
    for text in ["UTC", "utc", "uTc", "GMT", "gmt", "GmT"] {
        match parse_timezone(text).unwrap() {
            ParsedTimezone::Fixed(offset) => assert_eq!(offset.local_minus_utc(), 0),
            ParsedTimezone::Named(_) => panic!("{} is no zone of the database", text),
        }
    }
    assert!(select_timezone("utc", Tz::lookup("Asia/Tokyo")).is_ok());
    assert!(parse_timezone("utcx").is_err());
}

#[test]
fn zones_are_taken_from_the_database() {
    match parse_timezone("US/Eastern").unwrap() {
        ParsedTimezone::Named(found) => assert_eq!(found.name(), "US/Eastern"),
        ParsedTimezone::Fixed(_) => panic!("not an offset"),
    }
    assert!(Tz::lookup("Mars/Olympus").is_none());
    match select_timezone("x", Tz::lookup("Asia/Tokyo")).unwrap() {
        ParsedTimezone::Named(found) => assert_eq!(found.clone().name(), "Asia/Tokyo"),
        ParsedTimezone::Fixed(_) => panic!("not an offset"),
    }
    assert_eq!(select_timezone("x", None).unwrap_err(), "Unknown timezone: x");
}

#[test]
fn times_are_written_in_their_zone() {
    let utc = instant("2025-06-21T16:00:00.250Z");
    assert_eq!(zone("UTC").format_utc(&utc), "2025-06-21T16:00:00Z");
    assert_eq!(zone("+00:00").format_utc(&utc), "2025-06-21T16:00:00Z");
    assert_eq!(zone("-00:00").format_utc(&utc), "2025-06-21T16:00:00Z");
    assert_eq!(zone("+05:30").format_utc(&utc), "2025-06-21T21:30:00.250+05:30");
    assert_eq!(zone("-08:00").format_utc(&utc), "2025-06-21T08:00:00.250-08:00");
    assert_eq!(
        zone("America/New_York").format_utc(&utc),
        "2025-06-21T12:00:00.250-04:00"
    );
    let winter = instant("2025-01-21T16:00:00Z");
    assert_eq!(zone("Europe/London").format_utc(&winter), "2025-01-21T16:00:00+00:00");
}

#[test]
fn leap_seconds_are_kept() {
    let leap = instant("2016-12-31T23:59:60Z");
    assert_eq!(leap.nanos(), 1_000_000_000);
    assert_eq!(zone("UTC").format_utc(&leap), "2016-12-31T23:59:60Z");
    assert_eq!(zone("+05:30").format_utc(&leap), "2017-01-01T05:29:60+05:30");
    let half = instant("2016-12-31T23:59:60.5Z");
    assert_eq!(zone("+05:30").format_utc(&half), "2017-01-01T05:29:60.500+05:30");
    assert_eq!(read("2016-12-31 23:59:60", "UTC"), pair("2016-12-31T23:59:60Z"));
}

#[test]
fn leap_second_inside_a_minute_is_kept() {
    let (secs, nanos) = read("1800-01-01 10:00:60", "America/New_York");
    assert_eq!(nanos, 1_000_000_000);
    assert_eq!(secs, pair("1800-01-01T14:57:01Z").0);
    let utc = UtcTime::new(secs, nanos).unwrap();
    assert_eq!(zone("UTC").format_utc(&utc), "1800-01-01T14:57:02Z");
}

#[test]
fn written_times_read_back() {
    for text in ["2025-06-21T16:00:00Z", "0000-01-02T00:00:00Z", "9999-12-30T23:59:59.000000001Z"] {
        let utc = instant(text);
        for name in ["+05:30", "-08:00", "+23:59", "-23:59", "Asia/Kathmandu"] {
            let target = zone(name);
            if target.offset_seconds_at(&utc) % 60 == 0 {
                let written = target.format_utc(&utc);
                assert_eq!(read(&written, "Asia/Tokyo"), (utc.secs(), utc.nanos()));
            }
        }
        let written = zone("UTC").format_utc(&utc);
        assert_eq!(read(&written, "-03:00"), (utc.secs(), 0));
    }
}

#[test]
fn written_times_end_in_their_offset() {
    let utc = instant("2025-06-21T16:00:00Z");
    assert!(zone("GMT").format_utc(&utc).ends_with('Z'));
    assert!(zone("+00:01").format_utc(&utc).ends_with("+00:01"));
    assert!(zone("-23:59").format_utc(&utc).ends_with("-23:59"));
    let old = instant("1800-01-01T00:00:00Z");
    assert_eq!(zone("America/New_York").offset_seconds_at(&old), -17_762);
    assert!(zone("America/New_York").format_utc(&old).ends_with("-04:56"));
}

#[test]
fn shown_offsets_are_read_as_zones() {
    let utc = instant("2025-06-21T16:00:00Z");
    for name in ["Asia/Kathmandu", "America/St_Johns", "+13:45"] {
        let target = zone(name);
        let written = target.format_utc(&utc);
        let shown = &written[written.len() - 6..];
        assert_eq!(
            parse_offset(shown).unwrap().local_minus_utc(),
            target.offset_seconds_at(&utc)
        );
    }
}

#[test]
fn local_times_are_read_in_their_zone() {
    assert_eq!(read("2025-01-10 10:00:00", "Asia/Kolkata"), pair("2025-01-10T04:30:00Z"));
    assert_eq!(read("2025-01-10T10:00:00", "Asia/Kolkata"), pair("2025-01-10T04:30:00Z"));
    assert_eq!(read("2025-01-10", "Asia/Kolkata"), pair("2025-01-09T18:30:00Z"));
    assert_eq!(read("2025-01-10 10:00:00", "+05:30"), pair("2025-01-10T04:30:00Z"));
    assert_eq!(read("2025-01-10", "-08:00"), pair("2025-01-10T08:00:00Z"));
}

#[test]
fn rfc3339_text_needs_no_zone() {
    for name in ["UTC", "Asia/Tokyo", "-08:00"] {
        assert_eq!(read("2025-06-21T16:00:00+02:00", name), pair("2025-06-21T14:00:00Z"));
        assert_eq!(read("2025-06-21 16:00:00z", name), pair("2025-06-21T16:00:00Z"));
    }
}

#[test]
fn times_that_a_zone_skips_or_repeats_are_refused() {
    for text in ["2025-03-09 02:30:00", "2025-11-02T01:30:00"] {
        assert_eq!(
            parse_time_in_timezone(text, &zone("America/New_York")).unwrap_err(),
            format!("unrecognized time format: {}", text)
        );
    }
    assert_eq!(read("2025-03-09 01:59:59", "America/New_York"), pair("2025-03-09T06:59:59Z"));
    assert_eq!(read("2025-03-09 03:00:00", "America/New_York"), pair("2025-03-09T07:00:00Z"));
    assert_eq!(read("2025-03-09", "America/New_York"), pair("2025-03-09T05:00:00Z"));
}

#[test]
fn a_day_without_a_midnight_is_refused() {
    assert!(parse_time_in_timezone("2018-11-04", &zone("America/Sao_Paulo")).is_err());
    assert_eq!(read("2018-11-05", "America/Sao_Paulo"), pair("2018-11-05T02:00:00Z"));
}

#[test]
fn unreadable_times_are_refused() {
    for text in ["", "noon", "2025-13-01", "2025-01-10 10:00", "2025-01-10 25:00:00"] {
        assert_eq!(
            parse_time_in_timezone(text, &zone("UTC")).unwrap_err(),
            format!("unrecognized time format: {}", text)
        );
    }
}

#[test]
fn the_ends_of_the_calendar() {
    let last = read("+262142-12-31 23:59:59", "UTC");
    assert_eq!(last, (8_210_266_876_799, 0));
    let first = read("-262143-01-01 00:00:00", "UTC");
    assert_eq!(first, (-8_334_601_228_800, 0));
    assert!(UtcTime::new(last.0, 1_999_999_999).is_some());
    assert!(UtcTime::new(last.0, 2_000_000_000).is_none());
    assert!(UtcTime::new(last.0 + 1, 0).is_none());
    assert!(UtcTime::new(first.0, 0).is_some());
    assert!(UtcTime::new(first.0 - 1, 0).is_none());

    let end = UtcTime::new(last.0, 1_999_999_999).unwrap();
    assert_eq!(zone("UTC").format_utc(&end), "+262142-12-31T23:59:60Z");
    assert_eq!(zone("+00:01").format_utc(&end), "+262143-01-01T00:00:60.999999999+00:01");
    let begin = UtcTime::new(first.0, 0).unwrap();
    assert_eq!(zone("-00:01").format_utc(&begin), "-262144-12-31T23:59:00-00:01");
    assert_eq!(zone("Asia/Tokyo").offset_seconds_at(&end), 9 * 3600);

    assert_eq!(read("+262142-12-31 23:59:60", "UTC"), (last.0, 1_000_000_000));
    assert!(parse_time_in_timezone("+262142-12-31 23:59:59", &zone("-01:00")).is_err());
    assert_eq!(read("+262142-12-31 22:59:59", "-01:00"), last);
    assert!(parse_time_in_timezone("-262143-01-01 00:00:00", &zone("+01:00")).is_err());
}

#[test]
fn days_are_counted_from_the_first_year() {
    let epoch = NaiveDate::from_num_days_from_ce(719_163).unwrap().midnight();
    assert_eq!((epoch.secs(), epoch.nanos()), (0, 0));
    let last = NaiveDate::from_num_days_from_ce(95_745_399).unwrap().midnight();
    assert_eq!(last.secs(), 8_210_266_790_400);
    let first = NaiveDate::from_num_days_from_ce(-95_746_129).unwrap().midnight();
    assert_eq!(first.secs(), -8_334_601_228_800);
    assert!(NaiveDate::from_num_days_from_ce(95_745_400).is_none());
    assert!(NaiveDate::from_num_days_from_ce(-95_746_130).is_none());
}

#[test]
fn local_times_at_a_fixed_offset_are_shifted() {
    let local = NaiveDateTime::new(1_000, 7).unwrap();
    let east = zone("+01:00").local_datetime_to_utc(&local).unwrap();
    let west = zone("-01:00").local_datetime_to_utc(&local).unwrap();
    assert_eq!((east.secs(), east.nanos()), (-2_600, 7));
    assert_eq!((west.secs(), west.nanos()), (4_600, 7));
    assert_eq!(west.secs() - east.secs(), 7_200);
}

#[test]
fn the_first_reading_that_gives_a_local_time_counts() {
    let tokyo = zone("+09:00");
    let nothing = Reading { datetime: None, date: None };
    let by_day = Reading { datetime: None, date: NaiveDate::from_num_days_from_ce(719_163) };
    let by_time = Reading {
        datetime: NaiveDateTime::new(50_000, 3),
        date: NaiveDate::from_num_days_from_ce(719_164),
    };
    let off_the_end = Reading {
        datetime: NaiveDateTime::new(-8_334_601_228_800, 0),
        date: NaiveDate::from_num_days_from_ce(719_163),
    };
    let at = |rfc3339: Option<UtcTime>, readings: Vec<Reading>| {
        select_time("t", &tokyo, rfc3339, &readings).map(|utc| (utc.secs(), utc.nanos()))
    };
    assert_eq!(at(UtcTime::new(1, 2), vec![by_time]), Ok((1, 2)));
    assert_eq!(at(None, vec![nothing, by_time, by_day]), Ok((17_600, 3)));
    assert_eq!(at(None, vec![by_day, by_time]), Ok((-32_400, 0)));
    assert_eq!(
        at(None, vec![off_the_end, by_time]),
        Err("unrecognized time format: t".to_string())
    );
    assert_eq!(by_time.local().unwrap().secs(), 50_000);
    assert_eq!(by_day.local().unwrap().secs(), 0);
    assert!(nothing.local().is_none());
    assert_eq!(
        at(None, vec![nothing, nothing]),
        Err("unrecognized time format: t".to_string())
    );
    assert_eq!(at(None, vec![]), Err("unrecognized time format: t".to_string()));
}
