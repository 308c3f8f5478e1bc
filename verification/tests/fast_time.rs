use mcp_servers::delay::{compute_delay, plan_echo, validate_delay, EchoStep, MAX_DELAY_MS};
use mcp_servers::fast_time::{
    answer_conversion, answer_reading, answer_rest_time, answer_system_time, health, rest_echo,
    rest_time, version, CallToolResult, ConvertTimeRequest, EchoRequest, FastTimeServer,
    FlakyRequest, GetSystemTimeRequest, McpError, RestRefusal, RestTime,
};
use mcp_servers::moment::UtcTime;
use mcp_servers::protocol::{protocol_report, ProtocolVersion};
use mcp_servers::timezone::parse_timezone;

fn now() -> UtcTime {
    let parsed = chrono::DateTime::parse_from_rfc3339("2025-06-21T16:00:00Z").unwrap();
    UtcTime::new(parsed.timestamp(), parsed.timestamp_subsec_nanos()).unwrap()
}

fn conversion(time: &str, source: &str, target: &str) -> ConvertTimeRequest {
    ConvertTimeRequest {
        time: time.to_string(),
        source_timezone: source.to_string(),
        target_timezone: target.to_string(),
    }
}

fn flaky(key: &str, fail_times: Option<u64>) -> FlakyRequest {
    FlakyRequest { key: key.to_string(), fail_times }
}

fn stats(count: u64) -> String {
    format!(
        "{{\n  \"server\": \"fast-time-server\",\n  \"version\": \"0.1.0\",\n  \"requests_handled\": {},\n  \"uptime_seconds\": 90061\n}}",
        count
    )
}

#[test]
fn test_delay_validation_rejects_values_above_limit() {
    assert_eq!(validate_delay(Some(MAX_DELAY_MS)), Ok(Some(MAX_DELAY_MS)));
    assert!(validate_delay(Some(MAX_DELAY_MS + 1)).is_err());
}

#[test]
fn delays_within_the_limit_are_kept() {
    assert_eq!(validate_delay(None), Ok(None));
    assert_eq!(validate_delay(Some(0)), Ok(Some(0)));
    assert_eq!(
        validate_delay(Some(u64::MAX)),
        Err("delay exceeds the 60000 ms limit")
    );
}

#[test]
fn drawn_delays_are_moved_into_range() {
    assert_eq!(compute_delay(500, None), 500);
    assert_eq!(compute_delay(500, Some(-1)), 0);
    assert_eq!(compute_delay(500, Some(i64::MIN)), 0);
    assert_eq!(compute_delay(500, Some(0)), 0);
    assert_eq!(compute_delay(500, Some(731)), 731);
    assert_eq!(compute_delay(500, Some(60_000)), 60_000);
    assert_eq!(compute_delay(500, Some(60_001)), 60_000);
    assert_eq!(compute_delay(500, Some(i64::MAX)), 60_000);
}

#[test]
fn no_echo_waits_longer_than_the_limit() {
    for delay in [1, 59_999, 60_000] {
        let step = plan_echo("x".to_string(), Some(delay)).unwrap();
        let mean = step.mean_ms.unwrap();
        for drawn in [None, Some(i64::MIN), Some(i64::MAX), Some(60_001)] {
            assert!(compute_delay(mean, drawn) <= MAX_DELAY_MS);
        }
    }
}

#[test]
fn test_supported_protocol_versions_advertises_exactly_two_eras() {
    let server = FastTimeServer::new();
    assert_eq!(
        server.supported_protocol_versions(),
        [ProtocolVersion::new("2025-11-25"), ProtocolVersion::new("2026-07-28")]
    );
}

#[test]
fn test_protocol_report_modern_meta_wins() {
    let report = protocol_report(Some(ProtocolVersion::new("2026-07-28")), None);
    assert_eq!(report.protocol_version, "2026-07-28");
    assert_eq!(report.transport, "stateless");
}

#[test]
fn test_protocol_report_legacy_falls_back_to_negotiated() {
    let report = protocol_report(None, Some(ProtocolVersion::new("2025-11-25")));
    assert_eq!(report.protocol_version, "2025-11-25");
    assert_eq!(report.transport, "session");
}

#[test]
fn test_protocol_report_without_any_version_is_unknown() {
    let report = protocol_report(None, None);
    assert_eq!(report.protocol_version, "unknown");
    assert_eq!(report.transport, "session");
}

#[test]
fn the_version_of_the_request_wins_over_that_of_the_session() {
    let report = protocol_report(
        Some(ProtocolVersion::new("2026-07-28")),
        Some(ProtocolVersion::new("2025-11-25")),
    );
    assert_eq!(report.protocol_version, "2026-07-28");
    assert_eq!(report.transport, "stateless");
}

#[test]
fn the_server_introduces_itself() {
    let info = FastTimeServer::new().get_info();
    assert_eq!(info.name, "fast-time-server");
    assert_eq!(info.version, "0.1.0");
    assert_eq!(info.protocol_version.as_str(), "2025-11-25");
    assert!(info.tools);
    assert_eq!(info.instructions, "Ultra-fast MCP test server.");
}

#[test]
fn echo_answers_with_its_message() {
    let mut server = FastTimeServer::new();
    let request = EchoRequest { message: "hi".to_string(), delay: None };
    assert_eq!(
        server.echo(request),
        Ok(EchoStep { mean_ms: None, message: "hi".to_string() })
    );
    let request = EchoRequest { message: "hi".to_string(), delay: Some(0) };
    assert_eq!(server.echo(request).unwrap().mean_ms, None);
    let request = EchoRequest { message: "hi".to_string(), delay: Some(7) };
    assert_eq!(server.echo(request).unwrap().mean_ms, Some(7));
    assert_eq!(server.get_stats(90_061).text, stats(3));
}

#[test]
fn echo_above_the_limit_is_refused_and_not_counted() {
    let mut server = FastTimeServer::new();
    let request = EchoRequest { message: "hello".to_string(), delay: Some(MAX_DELAY_MS + 1) };
    assert_eq!(
        server.echo(request),
        Err(McpError::InvalidParams("delay exceeds the 60000 ms limit".to_string()))
    );
    assert_eq!(server.get_stats(90_061).text, stats(0));
}

#[test]
fn test_flaky_fails_then_succeeds() {
    let mut server = FastTimeServer::new();
    let key = "test-flaky-sdk";
    for attempt in 1..=2i64 {
        let reply = server.flaky(&flaky(key, Some(2)));
        assert!(reply.is_error, "attempt {attempt} should be isError");
        assert_eq!(
            reply.text,
            format!("flaky transient failure (attempt {attempt}/2)")
        );
    }
    let reply = server.flaky(&flaky(key, Some(2)));
    assert!(!reply.is_error);
    assert!(reply.text.contains("flaky recovered after 3 attempt(s)"));
    assert_eq!(server.attempts(key), 0);
}

#[test]
fn flaky_starts_over_after_it_succeeded() {
    let mut server = FastTimeServer::new();
    assert_eq!(server.flaky(&flaky("k", None)).text, "flaky recovered after 1 attempt(s)");
    for _ in 0..2 {
        for _ in 0..12 {
            assert!(server.flaky(&flaky("k", Some(12))).is_error);
        }
        assert_eq!(server.attempts("k"), 12);
        assert_eq!(
            server.flaky(&flaky("k", Some(12))),
            CallToolResult {
                is_error: false,
                text: "flaky recovered after 13 attempt(s)".to_string(),
            }
        );
    }
    assert_eq!(server.get_stats(90_061).text, stats(27));
}

#[test]
fn flaky_keys_do_not_affect_each_other() {
    let mut server = FastTimeServer::new();
    assert!(server.flaky(&flaky("a", Some(1))).is_error);
    assert!(server.flaky(&flaky("b", Some(2))).is_error);
    assert!(!server.flaky(&flaky("a", Some(1))).is_error);
    assert_eq!(
        server.flaky(&flaky("b", Some(2))).text,
        "flaky transient failure (attempt 2/2)"
    );
    assert_eq!(server.attempts("a"), 0);
    assert_eq!(server.attempts("b"), 2);
}

#[test]
fn test_convert_time_matches_go_fast_time_dst_behavior() {
    let mut server = FastTimeServer::new();
    let reply = server.convert_time(&conversion("2025-06-21T16:00:00Z", "UTC", "America/New_York"));
    assert_eq!(reply.text, "2025-06-21T12:00:00-04:00");
    assert!(!reply.is_error);
}

#[test]
fn test_convert_time_matches_go_fast_time_half_hour_zones() {
    let mut server = FastTimeServer::new();
    let reply = server.convert_time(&conversion("2025-01-10 10:00:00", "Asia/Kolkata", "UTC"));
    assert_eq!(reply.text, "2025-01-10T04:30:00Z");
    assert!(!reply.is_error);
}

#[test]
fn conversions_name_what_cannot_be_read() {
    let mut server = FastTimeServer::new();
    let reply = server.convert_time(&conversion("noon", "Mars/Olympus", "+99:00"));
    assert!(reply.is_error);
    assert_eq!(reply.text, "invalid source timezone: Unknown timezone: Mars/Olympus");
    let reply = server.convert_time(&conversion("noon", "UTC", "+99:00"));
    assert!(reply.is_error);
    assert_eq!(reply.text, "invalid target timezone: Offset out of range: +99:00");
    let reply = server.convert_time(&conversion("noon", "UTC", "GMT"));
    assert!(reply.is_error);
    assert_eq!(reply.text, "invalid time format: noon");
    assert_eq!(server.get_stats(90_061).text, stats(3));
}

#[test]
fn conversions_compose() {
    let mut server = FastTimeServer::new();
    for middle in ["Asia/Kathmandu", "-03:30", "America/New_York"] {
        let first = server.convert_time(&conversion("2025-02-03 04:05:06", "Europe/Paris", middle));
        let second = server.convert_time(&conversion(&first.text, "Asia/Tokyo", "Australia/Sydney"));
        let direct =
            server.convert_time(&conversion("2025-02-03 04:05:06", "Europe/Paris", "Australia/Sydney"));
        assert_eq!(second, direct);
        assert_eq!(direct.text, "2025-02-03T14:05:06+11:00");
    }
}

#[test]
fn conversions_to_utc_keep_the_second() {
    let mut server = FastTimeServer::new();
    for time in ["2025-06-21T16:00:00.750Z", "2016-12-31T23:59:60.5Z", "2025-06-21T16:00:00Z"] {
        let direct = server.convert_time(&conversion(time, "UTC", "UTC"));
        for middle in ["GMT", "+00:00", "-03:30", "Asia/Kathmandu", "Europe/London"] {
            let first = server.convert_time(&conversion(time, "UTC", middle));
            let second = server.convert_time(&conversion(&first.text, "Asia/Tokyo", "utc"));
            assert_eq!(second, direct);
        }
    }
    let direct = server.convert_time(&conversion("1800-01-01 10:00:60", "America/New_York", "UTC"));
    assert_eq!(direct.text, "1800-01-01T14:57:02Z");
    for middle in ["UTC", "+01:00"] {
        let first =
            server.convert_time(&conversion("1800-01-01 10:00:60", "America/New_York", middle));
        assert_eq!(server.convert_time(&conversion(&first.text, "-05:00", "UTC")), direct);
    }
}

#[test]
fn times_that_a_zone_skips_or_repeats_are_not_converted() {
    let mut server = FastTimeServer::new();
    for time in ["2025-03-09 02:30:00", "2025-03-09T02:30:00", "2025-11-02 01:30:00"] {
        let reply = server.convert_time(&conversion(time, "America/New_York", "UTC"));
        assert!(reply.is_error);
        assert_eq!(reply.text, format!("invalid time format: {}", time));
    }
}

#[test]
fn statistics_tell_requests_and_uptime() {
    let server = FastTimeServer::new();
    assert_eq!(
        server.get_stats(0).text,
        "{\n  \"server\": \"fast-time-server\",\n  \"version\": \"0.1.0\",\n  \"requests_handled\": 0,\n  \"uptime_seconds\": 0\n}"
    );
    assert!(server.get_stats(u64::MAX).text.ends_with("\"uptime_seconds\": 18446744073709551615\n}"));
}

#[test]
fn a_time_that_is_converted_to_its_own_zone_stays() {
    let mut server = FastTimeServer::new();
    let reply = server.convert_time(&conversion("2025-07-01 08:09:10", "Asia/Tokyo", "Asia/Tokyo"));
    assert_eq!(reply.text, "2025-07-01T08:09:10+09:00");
}

#[test]
fn answers_follow_what_was_read() {
    let utc = now();
    let tokyo = parse_timezone("+09:00").unwrap();
    assert_eq!(
        answer_reading("t", Ok(utc), &tokyo).text,
        "2025-06-22T01:00:00+09:00"
    );
    let refused = answer_reading("t", Err("no".to_string()), &tokyo);
    assert_eq!(refused, CallToolResult::error("invalid time format: t".to_string()));
    let refused = answer_conversion("t", Err("no".to_string()), Err("nor".to_string()));
    assert_eq!(refused, CallToolResult::error("invalid source timezone: no".to_string()));
    let refused = answer_conversion("t", Ok(tokyo), Err("nor".to_string()));
    assert_eq!(refused, CallToolResult::error("invalid target timezone: nor".to_string()));
    let told = answer_system_time("x", parse_timezone("UTC"), &utc);
    assert_eq!(told, CallToolResult::success("2025-06-21T16:00:00Z".to_string()));
    let refused = answer_rest_time("x", Err("no".to_string()), &utc);
    assert_eq!(refused, RestTime::Error("Invalid timezone 'x': no".to_string()));
}

#[test]
fn system_time_is_told_in_the_zone_asked_for() {
    let mut server = FastTimeServer::new();
    let reply = server.get_system_time(&GetSystemTimeRequest { timezone: None }, &now());
    assert!(reply.text.ends_with('Z'), "UTC default should end with Z: {}", reply.text);
    assert_eq!(reply.text, "2025-06-21T16:00:00Z");
    let request = GetSystemTimeRequest { timezone: Some("Asia/Tokyo".to_string()) };
    assert_eq!(server.get_system_time(&request, &now()).text, "2025-06-22T01:00:00+09:00");
    let request = GetSystemTimeRequest { timezone: Some("Mars/Olympus".to_string()) };
    let reply = server.get_system_time(&request, &now());
    assert!(reply.is_error);
    assert_eq!(
        reply.text,
        "Invalid timezone 'Mars/Olympus': Unknown timezone: Mars/Olympus"
    );
    assert_eq!(server.get_stats(90_061).text, stats(3));
}

#[test]
fn schema_tools_have_fixed_answers() {
    let mut server = FastTimeServer::new();
    let reply = server.schema_error();
    assert!(reply.is_error);
    assert_eq!(reply.text, "You cannot send more than 200 points");
    let result = server.schema_success();
    assert_eq!(result.recognition_id, "rec-123");
    assert_eq!(result.message, Some("ok".to_string()));
    let reply = server.get_stats(90_061);
    assert!(!reply.is_error);
    assert_eq!(reply.text, stats(2));
    assert!(reply.text.contains(r#""server": "fast-time-server""#));
    assert!(reply.text.contains(r#""requests_handled": "#));
}

#[test]
fn statistics_count_all_but_refused_echoes_and_reports() {
    let mut server = FastTimeServer::new();
    let bad_zone = GetSystemTimeRequest { timezone: Some("Mars/Olympus".to_string()) };
    for round in 0..3u64 {
        assert_eq!(server.get_stats(90_061).text, stats(6 * round));
        assert_eq!(server.get_stats(90_061).text, stats(6 * round));
        let accepted = EchoRequest { message: "a".to_string(), delay: Some(60_000) };
        assert!(server.echo(accepted).is_ok());
        let refused = EchoRequest { message: "a".to_string(), delay: Some(60_001) };
        assert!(server.echo(refused).is_err());
        assert!(server.flaky(&flaky("k", Some(9))).is_error);
        assert!(server.get_system_time(&bad_zone, &now()).is_error);
        assert!(server.convert_time(&conversion("noon", "UTC", "UTC")).is_error);
        assert!(server.schema_error().is_error);
        server.schema_success();
        protocol_report(None, None);
        assert!(server.attempts("k") <= 8 * (round + 1));
    }
    assert_eq!(server.get_stats(90_061).text, stats(18));
}

#[test]
fn plain_answers() {
    assert_eq!(health().status, "healthy");
    assert_eq!(health().server, "fast-time-server");
    assert_eq!(version().name, "fast-time-server");
    assert_eq!(version().mcp_version, "2025-11-25");
    assert_eq!(version().mcp_versions, ["2025-11-25", "2026-07-28"]);
    assert_eq!(
        rest_echo("hello".to_string(), None),
        Ok(EchoStep { mean_ms: None, message: "hello".to_string() })
    );
    assert_eq!(
        rest_echo("hello".to_string(), Some(60_001)),
        Err(RestRefusal {
            status: 400,
            content_type: "application/json",
            error: "delay exceeds the 60000 ms limit",
        })
    );
    assert_eq!(
        rest_time(&Some("America/New_York".to_string()), &now()),
        RestTime::Time {
            time: "2025-06-21T12:00:00-04:00".to_string(),
            timezone: "America/New_York".to_string(),
        }
    );
    assert_eq!(
        rest_time(&None, &now()),
        RestTime::Time {
            time: "2025-06-21T16:00:00Z".to_string(),
            timezone: "UTC".to_string(),
        }
    );
    assert_eq!(
        rest_time(&Some("+5".to_string()), &now()),
        RestTime::Error(
            "Invalid timezone '+5': Offset must be in format +HH:MM or -HH:MM".to_string()
        )
    );
}
