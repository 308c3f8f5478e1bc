//! The fast time server: its tools and its plain HTTP answers.

use vstd::hash_map::StringHashMap;
use vstd::prelude::*;
use vstd::string::*;
use crate::calendar::{
    rfc3339_instant, rfc3339_text, rfc3339_utc_text, shown_second, shown_time, zone_known,
    zone_offset,
};
use crate::delay::{pause_of, plan_echo, too_long, EchoStep};
use crate::moment::UtcTime;
use crate::protocol::{ProtocolVersion, MCP_PROTOCOL_VERSION, MCP_PROTOCOL_VERSION_MODERN};
use crate::text::{
    all_digits, concat, decimal, decimal_reads_back, digits_value, push_decimal,
};
use crate::timezone::{
    database_zone, database_zones_stand_for_themselves, parse_time_in_timezone, parse_timezone,
    reads_back, shows_offset, time_of, time_text, utc_letters_stand_for_utc, writable,
    written_instant, zone_of, zone_result, ParsedTimezone, Zone,
};

verus! {

/// Where the server listens unless told otherwise.
pub const DEFAULT_BIND_ADDRESS: &'static str = "0.0.0.0:9080";

/// The name of the server.
pub const APP_NAME: &'static str = "fast-time-server";

/// The version of the server.
pub const APP_VERSION: &'static str = "0.1.0";

/// What a tool answers: a text, and whether it reports a failure.
#[derive(Debug, PartialEq, Eq)]
pub struct CallToolResult {
    pub is_error: bool,
    pub text: String,
}

/// What a [`CallToolResult`] says.
pub struct Reply {
    pub is_error: bool,
    pub text: Seq<char>,
}

impl View for CallToolResult {
    type V = Reply;

    open spec fn view(&self) -> Reply {
        Reply { is_error: self.is_error, text: self.text@ }
    }
}

impl CallToolResult {
    /// An answer.
    pub fn success(text: String) -> (r: Self)
        ensures
            r@ == (Reply { is_error: false, text: text@ }),
    {
        CallToolResult { is_error: false, text }
    }

    /// A report of a failure.
    pub fn error(text: String) -> (r: Self)
        ensures
            r@ == (Reply { is_error: true, text: text@ }),
    {
        CallToolResult { is_error: true, text }
    }
}

/// Why a call is refused before any tool runs.
#[derive(Debug, PartialEq, Eq)]
pub enum McpError {
    /// The arguments of the call are not acceptable.
    InvalidParams(String),
}

/// Arguments of `echo`, but for the spread of the delay.
#[derive(Debug)]
pub struct EchoRequest {
    pub message: String,
    pub delay: Option<u64>,
}

/// Arguments of `flaky`.
#[derive(Debug)]
pub struct FlakyRequest {
    /// Unique key to track attempt count across retries.
    pub key: String,
    /// Number of times to report a failure before succeeding.
    pub fail_times: Option<u64>,
}

/// Arguments of `get_system_time`.
#[derive(Debug)]
pub struct GetSystemTimeRequest {
    pub timezone: Option<String>,
}

/// Arguments of `convert_time`.
#[derive(Debug)]
pub struct ConvertTimeRequest {
    pub time: String,
    pub source_timezone: String,
    pub target_timezone: String,
}

/// What `schema_success` answers.
#[derive(Debug, PartialEq, Eq)]
pub struct RecognitionResult {
    pub recognition_id: String,
    pub message: Option<String>,
}

/// The state that all calls share: how many calls came in, and how many attempts the `flaky`
/// tool has seen for each key that has not succeeded yet.
pub struct FastTimeServer {
    request_count: u64,
    flaky: StringHashMap<u64>,
}

/// What a [`FastTimeServer`] holds.
pub struct ServerState {
    pub request_count: u64,
    pub attempts: Map<Seq<char>, u64>,
}

impl View for FastTimeServer {
    type V = ServerState;

    closed spec fn view(&self) -> ServerState {
        ServerState { request_count: self.request_count, attempts: self.flaky@ }
    }
}

/// The request count after one more request; after the largest it starts again from zero.
pub open spec fn counted(request_count: u64) -> u64 {
    if request_count == u64::MAX {
        0
    } else {
        (request_count + 1) as u64
    }
}

/// The number of the next attempt under a key, from 1.
pub open spec fn attempt_number(attempts: Map<Seq<char>, u64>, key: Seq<char>) -> int {
    if attempts.contains_key(key) {
        attempts[key] + 1
    } else {
        1
    }
}

/// Whether the next attempt under a key fails, where `fail_times` are to fail.
pub open spec fn attempt_fails(
    attempts: Map<Seq<char>, u64>,
    key: Seq<char>,
    fail_times: u64,
) -> bool {
    attempt_number(attempts, key) <= fail_times
}

/// The attempts after one more under a key: one that fails is counted, one that succeeds ends
/// the count.
pub open spec fn after_attempt(
    attempts: Map<Seq<char>, u64>,
    key: Seq<char>,
    fail_times: u64,
) -> Map<Seq<char>, u64> {
    if attempt_fails(attempts, key, fail_times) {
        attempts.insert(key, attempt_number(attempts, key) as u64)
    } else {
        attempts.remove(key)
    }
}

/// What the next attempt under a key is answered.
pub open spec fn flaky_reply(
    attempts: Map<Seq<char>, u64>,
    key: Seq<char>,
    fail_times: u64,
) -> Reply {
    let attempt = decimal(attempt_number(attempts, key) as nat);
    if attempt_fails(attempts, key, fail_times) {
        Reply {
            is_error: true,
            text: "flaky transient failure (attempt "@ + attempt + "/"@ + decimal(
                fail_times as nat,
            ) + ")"@,
        }
    } else {
        Reply { is_error: false, text: "flaky recovered after "@ + attempt + " attempt(s)"@ }
    }
}

/// A finished call of a tool, with what the state of the server depends on.
pub enum Call {
    Echo { delay: Option<u64> },
    Flaky { key: Seq<char>, fail_times: u64 },
    GetSystemTime,
    ConvertTime,
    SchemaError,
    SchemaSuccess,
    GetStats,
    VerifyProtocol,
}

/// Whether a call is counted as a request: all are, answered with a failure or not, but an echo
/// that is refused and the calls that only report on the server.
pub open spec fn is_counted(call: Call) -> bool {
    match call {
        Call::Echo { delay } => !too_long(delay),
        Call::GetStats | Call::VerifyProtocol => false,
        _ => true,
    }
}

/// What a server holds after a call.
pub open spec fn after_call(state: ServerState, call: Call) -> ServerState {
    ServerState {
        request_count: if is_counted(call) {
            counted(state.request_count)
        } else {
            state.request_count
        },
        attempts: match call {
            Call::Flaky { key, fail_times } => after_attempt(state.attempts, key, fail_times),
            _ => state.attempts,
        },
    }
}

/// What a server that has seen no call holds.
pub open spec fn fresh_state() -> ServerState {
    ServerState { request_count: 0, attempts: Map::empty() }
}

/// What a server holds after a sequence of calls.
pub open spec fn after_calls(state: ServerState, calls: Seq<Call>) -> ServerState
    decreases calls.len(),
{
    if calls.len() == 0 {
        state
    } else {
        after_call(after_calls(state, calls.drop_last()), calls.last())
    }
}

/// How many calls of a sequence are counted as requests.
pub open spec fn requests_among(calls: Seq<Call>) -> nat {
    calls.filter(|call: Call| is_counted(call)).len()
}

/// The zone in which the time is asked for: UTC unless one is given.
pub open spec fn requested_zone(timezone: Option<String>) -> Seq<char> {
    match timezone {
        Some(name) => name@,
        None => "UTC"@,
    }
}

/// What is said of a time zone that cannot be read.
pub open spec fn bad_zone_text(name: Seq<char>, reason: Seq<char>) -> Seq<char> {
    "Invalid timezone '"@ + name + "': "@ + reason
}

/// What is answered to a question for the time in a zone.
pub open spec fn system_time_reply(
    name: Seq<char>,
    zone: Result<Zone, Seq<char>>,
    now: (i64, u32),
) -> Reply {
    match zone {
        Ok(zone) => Reply { is_error: false, text: time_text(zone, now) },
        Err(reason) => Reply { is_error: true, text: bad_zone_text(name, reason) },
    }
}

/// What a conversion is answered: the time in the target zone, or which of the source zone, the
/// target zone and the time is the first that cannot be read.
pub open spec fn conversion_reply(
    time: Seq<char>,
    source: Result<Zone, Seq<char>>,
    target: Result<Zone, Seq<char>>,
) -> Reply {
    match (source, target) {
        (Err(reason), _) => Reply { is_error: true, text: "invalid source timezone: "@ + reason },
        (Ok(_), Err(reason)) => Reply {
            is_error: true,
            text: "invalid target timezone: "@ + reason,
        },
        (Ok(source), Ok(target)) => match time_of(time, source) {
            Some(utc) => Reply { is_error: false, text: time_text(target, utc) },
            None => Reply { is_error: true, text: "invalid time format: "@ + time },
        },
    }
}

/// Whether a converted time shows the offset of the target zone and, read again, stands for the
/// instant that was converted.
pub open spec fn keeps_instant(
    time: Seq<char>,
    source: Result<Zone, Seq<char>>,
    target: Result<Zone, Seq<char>>,
    answer: Seq<char>,
) -> bool {
    match (source, target) {
        (Ok(source), Ok(target)) => match time_of(time, source) {
            Some(utc) => shows_offset(target, utc, answer) && reads_back(target, utc, answer),
            None => true,
        },
        _ => true,
    }
}

/// What the statistics say.
pub open spec fn stats_text(request_count: u64, uptime_secs: u64) -> Seq<char> {
    "{\n  \"server\": \""@ + APP_NAME@ + "\",\n  \"version\": \""@ + APP_VERSION@
        + "\",\n  \"requests_handled\": "@ + decimal(request_count as nat)
        + ",\n  \"uptime_seconds\": "@ + decimal(uptime_secs as nat) + "\n}"@
}

/// Says why a time zone cannot be read.
fn describe_bad_zone(name: &str, reason: &str) -> (r: String)
    ensures
        r@ == bad_zone_text(name@, reason@),
{
    let mut r: String = concat("Invalid timezone '", name);
    r.append("': ");
    r.append(reason);
    r
}

/// Answers a question for the time, from the zone as it was read.
pub fn answer_system_time(name: &str, zone: Result<ParsedTimezone, String>, now: &UtcTime) -> (r:
    CallToolResult)
    ensures
        r@ == system_time_reply(name@, zone_result(zone), now@),
        zone matches Ok(zone) ==> shows_offset(zone@, now@, r.text@) && reads_back(
            zone@,
            now@,
            r.text@,
        ),
{
    match zone {
        Ok(zone) => CallToolResult::success(zone.format_utc(now)),
        Err(reason) => CallToolResult::error(describe_bad_zone(name, reason.as_str())),
    }
}

/// Answers a conversion, from the time as it was read.
pub fn answer_reading(time: &str, parsed: Result<UtcTime, String>, target: &ParsedTimezone) -> (r:
    CallToolResult)
    ensures
        match parsed {
            Ok(utc) => {
                &&& r@ == (Reply { is_error: false, text: time_text(target@, utc@) })
                &&& shows_offset(target@, utc@, r.text@)
                &&& reads_back(target@, utc@, r.text@)
            },
            Err(_) => r@ == (Reply { is_error: true, text: "invalid time format: "@ + time@ }),
        },
{
    match parsed {
        Ok(utc) => CallToolResult::success(target.format_utc(&utc)),
        Err(_) => CallToolResult::error(concat("invalid time format: ", time)),
    }
}

/// Answers a conversion, from the zones as they were read.
pub fn answer_conversion(
    time: &str,
    source: Result<ParsedTimezone, String>,
    target: Result<ParsedTimezone, String>,
) -> (r: CallToolResult)
    ensures
        r@ == conversion_reply(time@, zone_result(source), zone_result(target)),
        keeps_instant(time@, zone_result(source), zone_result(target), r.text@),
{
    let source_timezone: ParsedTimezone = match source {
        Ok(timezone) => timezone,
        Err(reason) => {
            return CallToolResult::error(concat("invalid source timezone: ", reason.as_str()));
        },
    };
    let target_timezone: ParsedTimezone = match target {
        Ok(timezone) => timezone,
        Err(reason) => {
            return CallToolResult::error(concat("invalid target timezone: ", reason.as_str()));
        },
    };
    let parsed: Result<UtcTime, String> = parse_time_in_timezone(time, &source_timezone);
    answer_reading(time, parsed, &target_timezone)
}

/// How the server introduces itself.
#[derive(Debug, PartialEq, Eq)]
pub struct ServerInfo {
    pub name: &'static str,
    pub version: &'static str,
    pub protocol_version: ProtocolVersion,
    pub tools: bool,
    pub instructions: &'static str,
}

impl FastTimeServer {
    /// A server that has seen no call.
    pub fn new() -> (r: Self)
        ensures
            r@ == fresh_state(),
    {
        FastTimeServer { request_count: 0, flaky: StringHashMap::new() }
    }

    /// Counts one more request.
    fn count_request(&mut self)
        ensures
            final(self)@.request_count == counted(old(self)@.request_count),
            final(self)@.attempts == old(self)@.attempts,
    {
        self.request_count = self.request_count.wrapping_add(1);
    }

    /// The attempts that `flaky` has counted under a key that has not succeeded yet.
    pub fn attempts(&self, key: &str) -> (r: u64)
        ensures
            r == attempt_number(self@.attempts, key@) - 1,
    {
        match self.flaky.get(key) {
            Some(counter) => *counter,
            None => 0,
        }
    }

    /// Starts an echo. One that is refused is not counted.
    pub fn echo(&mut self, request: EchoRequest) -> (r: Result<EchoStep, McpError>)
        ensures
            match r {
                Ok(step) => {
                    &&& !too_long(request.delay)
                    &&& step.message == request.message
                    &&& step.mean_ms == pause_of(request.delay)
                },
                Err(McpError::InvalidParams(reason)) => {
                    &&& too_long(request.delay)
                    &&& reason@ == "delay exceeds the 60000 ms limit"@
                },
            },
            request.delay matches Some(ms) ==> (0 < ms <= 60_000 ==> (r matches Ok(step)
                && step.mean_ms == Some(ms))),
            request.delay is None || request.delay == Some(0u64) ==> (r matches Ok(step)
                && step.mean_ms is None),
            final(self)@ == after_call(old(self)@, Call::Echo { delay: request.delay }),
    {
        match plan_echo(request.message, request.delay) {
            Ok(step) => {
                self.count_request();
                Ok(step)
            },
            Err(reason) => Err(McpError::InvalidParams(reason.to_string())),
        }
    }

    /// Reports a failure for the first `fail_times` calls under a key, then succeeds and forgets
    /// the key.
    pub fn flaky(&mut self, request: &FlakyRequest) -> (r: CallToolResult)
        requires
            attempt_number(old(self)@.attempts, request.key@) <= u64::MAX,
        ensures
            ({
                let fail_times = request.fail_times.unwrap_or(0);
                &&& r@ == flaky_reply(old(self)@.attempts, request.key@, fail_times)
                &&& final(self)@ == after_call(
                    old(self)@,
                    Call::Flaky { key: request.key@, fail_times },
                )
            }),
    {
        let fail_times: u64 = match request.fail_times {
            Some(fail_times) => fail_times,
            None => 0,
        };
        self.count_request();
        let attempt: u64 = self.attempts(request.key.as_str()) + 1;
        if attempt <= fail_times {
            self.flaky.insert(request.key.clone(), attempt);
            let mut text: String = "flaky transient failure (attempt ".to_string();
            push_decimal(&mut text, attempt);
            text.append("/");
            push_decimal(&mut text, fail_times);
            text.append(")");
            CallToolResult::error(text)
        } else {
            self.flaky.remove(request.key.as_str());
            let mut text: String = "flaky recovered after ".to_string();
            push_decimal(&mut text, attempt);
            text.append(" attempt(s)");
            CallToolResult::success(text)
        }
    }

    /// Tells the time `now` in the zone that is asked for.
    pub fn get_system_time(&mut self, request: &GetSystemTimeRequest, now: &UtcTime) -> (r:
        CallToolResult)
        ensures
            ({
                let name = requested_zone(request.timezone);
                let zone = zone_of(name, database_zone(name));
                &&& r@ == system_time_reply(name, zone, now@)
                &&& zone matches Ok(zone) ==> shows_offset(zone, now@, r.text@) && reads_back(
                    zone,
                    now@,
                    r.text@,
                )
            }),
            final(self)@ == after_call(old(self)@, Call::GetSystemTime),
    {
        let name: &str = match &request.timezone {
            Some(name) => name.as_str(),
            None => "UTC",
        };
        self.count_request();
        let zone: Result<ParsedTimezone, String> = parse_timezone(name);
        answer_system_time(name, zone, now)
    }

    /// Converts a time from one zone to another.
    pub fn convert_time(&mut self, request: &ConvertTimeRequest) -> (r: CallToolResult)
        ensures
            ({
                let source = zone_of(
                    request.source_timezone@,
                    database_zone(request.source_timezone@),
                );
                let target = zone_of(
                    request.target_timezone@,
                    database_zone(request.target_timezone@),
                );
                &&& r@ == conversion_reply(request.time@, source, target)
                &&& keeps_instant(request.time@, source, target, r.text@)
            }),
            final(self)@ == after_call(old(self)@, Call::ConvertTime),
    {
        self.count_request();
        let source: Result<ParsedTimezone, String> = parse_timezone(
            request.source_timezone.as_str(),
        );
        let target: Result<ParsedTimezone, String> = parse_timezone(
            request.target_timezone.as_str(),
        );
        answer_conversion(request.time.as_str(), source, target)
    }

    /// Always reports a failure.
    pub fn schema_error(&mut self) -> (r: CallToolResult)
        ensures
            r@ == (Reply { is_error: true, text: "You cannot send more than 200 points"@ }),
            final(self)@ == after_call(old(self)@, Call::SchemaError),
    {
        self.count_request();
        CallToolResult::error("You cannot send more than 200 points".to_string())
    }

    /// Always answers with the same recognition.
    pub fn schema_success(&mut self) -> (r: RecognitionResult)
        ensures
            r.recognition_id@ == "rec-123"@,
            r.message matches Some(message) && message@ == "ok"@,
            final(self)@ == after_call(old(self)@, Call::SchemaSuccess),
    {
        self.count_request();
        RecognitionResult {
            recognition_id: "rec-123".to_string(),
            message: Some("ok".to_string()),
        }
    }

    /// Tells how many calls were counted, and for how many whole seconds the server has been up.
    /// This call is not counted.
    pub fn get_stats(&self, uptime_secs: u64) -> (r: CallToolResult)
        ensures
            r@ == (Reply { is_error: false, text: stats_text(self@.request_count, uptime_secs) }),
    {
        let mut text: String = "{\n  \"server\": \"".to_string();
        text.append(APP_NAME);
        text.append("\",\n  \"version\": \"");
        text.append(APP_VERSION);
        text.append("\",\n  \"requests_handled\": ");
        push_decimal(&mut text, self.request_count);
        text.append(",\n  \"uptime_seconds\": ");
        push_decimal(&mut text, uptime_secs);
        text.append("\n}");
        CallToolResult::success(text)
    }

    /// How the server introduces itself: it offers tools, and speaks the older revision unless
    /// told otherwise.
    pub fn get_info(&self) -> (r: ServerInfo)
        ensures
            r.name@ == APP_NAME@,
            r.version@ == APP_VERSION@,
            r.protocol_version@ == MCP_PROTOCOL_VERSION@,
            r.tools,
            r.instructions@ == "Ultra-fast MCP test server."@,
    {
        ServerInfo {
            name: APP_NAME,
            version: APP_VERSION,
            protocol_version: ProtocolVersion::new(MCP_PROTOCOL_VERSION),
            tools: true,
            instructions: "Ultra-fast MCP test server.",
        }
    }

    /// The revisions that are served, both at once, older first.
    pub fn supported_protocol_versions(&self) -> (r: Vec<ProtocolVersion>)
        ensures
            r@.len() == 2,
            r@[0]@ == MCP_PROTOCOL_VERSION@,
            r@[1]@ == MCP_PROTOCOL_VERSION_MODERN@,
    {
        let mut r: Vec<ProtocolVersion> = Vec::new();
        r.push(ProtocolVersion::new(MCP_PROTOCOL_VERSION));
        r.push(ProtocolVersion::new(MCP_PROTOCOL_VERSION_MODERN));
        r
    }
}

/// The answer to a health check.
#[derive(Clone, Copy, Debug, PartialEq, Eq)]
pub struct HealthReport {
    pub status: &'static str,
    pub server: &'static str,
    pub version: &'static str,
}

/// Answers a health check.
pub fn health() -> (r: HealthReport)
    ensures
        r.status@ == "healthy"@,
        r.server@ == APP_NAME@,
        r.version@ == APP_VERSION@,
{
    HealthReport { status: "healthy", server: APP_NAME, version: APP_VERSION }
}

/// The answer to a question for the version.
#[derive(Clone, Copy, Debug, PartialEq, Eq)]
pub struct VersionReport {
    pub name: &'static str,
    pub version: &'static str,
    pub mcp_version: &'static str,
    pub mcp_versions: [&'static str; 2],
}

/// Tells the version of the server and the revisions of the protocol that it serves.
pub fn version() -> (r: VersionReport)
    ensures
        r.name@ == APP_NAME@,
        r.version@ == APP_VERSION@,
        r.mcp_version@ == MCP_PROTOCOL_VERSION@,
        r.mcp_versions@[0]@ == MCP_PROTOCOL_VERSION@,
        r.mcp_versions@[1]@ == MCP_PROTOCOL_VERSION_MODERN@,
{
    VersionReport {
        name: APP_NAME,
        version: APP_VERSION,
        mcp_version: MCP_PROTOCOL_VERSION,
        mcp_versions: [MCP_PROTOCOL_VERSION, MCP_PROTOCOL_VERSION_MODERN],
    }
}

/// The answer to an echo over plain HTTP that is refused.
#[derive(Debug, PartialEq, Eq)]
pub struct RestRefusal {
    pub status: u16,
    pub content_type: &'static str,
    pub error: &'static str,
}

/// Starts an echo over plain HTTP.
pub fn rest_echo(message: String, delay: Option<u64>) -> (r: Result<EchoStep, RestRefusal>)
    ensures
        match r {
            Ok(step) => !too_long(delay) && step.message == message && step.mean_ms == pause_of(
                delay,
            ),
            Err(refusal) => {
                &&& too_long(delay)
                &&& refusal.status == 400
                &&& refusal.content_type@ == "application/json"@
                &&& refusal.error@ == "delay exceeds the 60000 ms limit"@
            },
        },
        delay matches Some(ms) ==> (0 < ms <= 60_000 ==> (r matches Ok(step) && step.mean_ms
            == Some(ms))),
        delay is None || delay == Some(0u64) ==> (r matches Ok(step) && step.mean_ms is None),
{
    match plan_echo(message, delay) {
        Ok(step) => Ok(step),
        Err(error) => Err(
            RestRefusal { status: 400, content_type: "application/json", error },
        ),
    }
}

/// The answer to a question for the time over plain HTTP.
#[derive(Debug, PartialEq, Eq)]
pub enum RestTime {
    Time { time: String, timezone: String },
    Error(String),
}

/// Answers a question for the time over plain HTTP, from the zone as it was read.
pub fn answer_rest_time(name: &str, zone: Result<ParsedTimezone, String>, now: &UtcTime) -> (r:
    RestTime)
    ensures
        match zone_result(zone) {
            Ok(zone) => r matches RestTime::Time { time, timezone } && time@ == time_text(
                zone,
                now@,
            ) && timezone@ == name@ && shows_offset(zone, now@, time@) && reads_back(
                zone,
                now@,
                time@,
            ),
            Err(reason) => r matches RestTime::Error(text) && text@ == bad_zone_text(
                name@,
                reason,
            ),
        },
        match r {
            RestTime::Time { time, .. } => (Reply { is_error: false, text: time@ }),
            RestTime::Error(text) => (Reply { is_error: true, text: text@ }),
        } == system_time_reply(name@, zone_result(zone), now@),
{
    match zone {
        Ok(zone) => RestTime::Time { time: zone.format_utc(now), timezone: name.to_string() },
        Err(reason) => RestTime::Error(describe_bad_zone(name, reason.as_str())),
    }
}

/// Tells the time `now` over plain HTTP, in the zone that is asked for.
pub fn rest_time(tz: &Option<String>, now: &UtcTime) -> (r: RestTime)
    ensures
        match zone_of(requested_zone(*tz), database_zone(requested_zone(*tz))) {
            Ok(zone) => r matches RestTime::Time { time, timezone } && time@ == time_text(
                zone,
                now@,
            ) && timezone@ == requested_zone(*tz) && shows_offset(zone, now@, time@) && reads_back(
                zone,
                now@,
                time@,
            ),
            Err(reason) => r matches RestTime::Error(text) && text@ == bad_zone_text(
                requested_zone(*tz),
                reason,
            ),
        },
        match r {
            RestTime::Time { time, .. } => (Reply { is_error: false, text: time@ }),
            RestTime::Error(text) => (Reply { is_error: true, text: text@ }),
        } == system_time_reply(
            requested_zone(*tz),
            zone_of(requested_zone(*tz), database_zone(requested_zone(*tz))),
            now@,
        ),
{
    let name: &str = match tz {
        Some(name) => name.as_str(),
        None => "UTC",
    };
    let zone: Result<ParsedTimezone, String> = parse_timezone(name);
    answer_rest_time(name, zone, now)
}

/// A time converted in two steps is what it is in one, where the zone in between loses nothing
/// of it: the second step may read the first answer in any zone.
pub proof fn conversions_compose(
    time: Seq<char>,
    source: Zone,
    middle: Zone,
    other: Zone,
    target: Zone,
    answer: Seq<char>,
)
    requires
        time_of(time, source) matches Some(utc) && writable(middle, utc) && written_instant(
            middle,
            utc,
        ) == utc,
        keeps_instant(time, Ok(source), Ok(middle), answer),
    ensures
        conversion_reply(answer, Ok(other), Ok(target)) == conversion_reply(
            time,
            Ok(source),
            Ok(target),
        ),
{
    assert(time_of(answer, other) == time_of(time, source));
}

/// A time converted to UTC by way of another zone is what it is when converted at once, to the
/// second that UTC text shows: the second step may read the first answer in any zone.
pub proof fn conversions_to_utc_compose(
    time: Seq<char>,
    source: Zone,
    middle: Zone,
    other: Zone,
    answer: Seq<char>,
)
    requires
        time_of(time, source) matches Some(utc) && writable(middle, utc),
        keeps_instant(time, Ok(source), Ok(middle), answer),
    ensures
        conversion_reply(answer, Ok(other), Ok(Zone::Fixed(0))) == conversion_reply(
            time,
            Ok(source),
            Ok(Zone::Fixed(0)),
        ),
        !conversion_reply(time, Ok(source), Ok(Zone::Fixed(0))).is_error,
{
    assert(time_of(answer, other) == Some(
        written_instant(middle, time_of(time, source).unwrap()),
    ));
}

/// A time converted twice, through any zones, still stands for the second that a clock showed
/// of it at first: the last answer may be read in any zone.
pub proof fn conversions_keep_the_second(
    time: Seq<char>,
    source: Zone,
    middle: Zone,
    other: Zone,
    target: Zone,
    answer: Seq<char>,
    second: Seq<char>,
    zone: Zone,
)
    requires
        time_of(time, source) matches Some(utc) && writable(middle, utc) && writable(
            target,
            written_instant(middle, utc),
        ),
        keeps_instant(time, Ok(source), Ok(middle), answer),
        keeps_instant(answer, Ok(other), Ok(target), second),
    ensures
        time_of(time, source) matches Some(utc) && time_of(second, zone) matches Some(kept)
            && kept.0 == shown_time(utc).0,
{
    let utc = time_of(time, source).unwrap();
    assert(time_of(answer, other) == Some(written_instant(middle, utc)));
    assert(time_of(second, zone) == Some(
        written_instant(target, written_instant(middle, utc)),
    ));
}

/// The attempts after a number of calls under one key.
pub open spec fn after_attempts(
    attempts: Map<Seq<char>, u64>,
    key: Seq<char>,
    fail_times: u64,
    calls: nat,
) -> Map<Seq<char>, u64>
    decreases calls,
{
    if calls == 0 {
        attempts
    } else {
        after_attempt(after_attempts(attempts, key, fail_times, (calls - 1) as nat), key, fail_times)
    }
}

/// Under a key that is not being counted, the first `fail_times` calls fail, numbered from 1,
/// and the next one succeeds and leaves the counts as they were before the first.
pub proof fn flaky_fails_then_succeeds(
    attempts: Map<Seq<char>, u64>,
    key: Seq<char>,
    fail_times: u64,
    calls: nat,
)
    requires
        !attempts.contains_key(key),
        calls <= fail_times,
        fail_times < u64::MAX,
    ensures
        ({
            let reached = after_attempts(attempts, key, fail_times, calls);
            &&& attempt_number(reached, key) == calls + 1
            &&& flaky_reply(reached, key, fail_times).is_error == (calls < fail_times)
            &&& calls == fail_times ==> after_attempt(reached, key, fail_times) == attempts
        }),
    decreases calls,
{
    let reached = after_attempts(attempts, key, fail_times, calls);
    if calls > 0 {
        let before = after_attempts(attempts, key, fail_times, (calls - 1) as nat);
        flaky_fails_then_succeeds(attempts, key, fail_times, (calls - 1) as nat);
        lemma_other_keys_stay(attempts, key, fail_times, (calls - 1) as nat);
        assert(reached == before.insert(key, calls as u64));
    }
    lemma_other_keys_stay(attempts, key, fail_times, calls);
    if calls == fail_times {
        assert(reached.remove(key) =~= attempts);
    }
}

/// Calls under a key change nothing under the others.
proof fn lemma_other_keys_stay(
    attempts: Map<Seq<char>, u64>,
    key: Seq<char>,
    fail_times: u64,
    calls: nat,
)
    requires
        !attempts.contains_key(key),
    ensures
        after_attempts(attempts, key, fail_times, calls).remove(key) =~= attempts,
    decreases calls,
{
    if calls > 0 {
        lemma_other_keys_stay(attempts, key, fail_times, (calls - 1) as nat);
    }
}

/// Calls under different keys do not affect each other: what a call is answered does not depend
/// on a call under another key before it, and their order does not matter.
pub proof fn flaky_keys_are_isolated(
    attempts: Map<Seq<char>, u64>,
    key: Seq<char>,
    fail_times: u64,
    other: Seq<char>,
    other_fail_times: u64,
)
    requires
        key != other,
    ensures
        flaky_reply(after_attempt(attempts, other, other_fail_times), key, fail_times)
            == flaky_reply(attempts, key, fail_times),
        after_attempt(after_attempt(attempts, other, other_fail_times), key, fail_times)
            == after_attempt(after_attempt(attempts, key, fail_times), other, other_fail_times),
{
    let one = after_attempt(attempts, other, other_fail_times);
    let two = after_attempt(attempts, key, fail_times);
    assert(attempt_number(one, key) == attempt_number(attempts, key));
    assert(attempt_number(two, other) == attempt_number(attempts, other));
    assert(after_attempt(one, key, fail_times) =~= after_attempt(two, other, other_fail_times));
}

/// Of a server that has seen fewer than 2^64 calls, the statistics tell how many of them were
/// `flaky`, `get_system_time`, `convert_time`, `schema_error` and `schema_success` calls, failed
/// ones among them, and echoes that were accepted.
pub proof fn statistics_tell_the_requests(calls: Seq<Call>, uptime_secs: u64)
    requires
        calls.len() <= u64::MAX,
    ensures
        after_calls(fresh_state(), calls).request_count == requests_among(calls),
        requests_among(calls) <= calls.len(),
        stats_text(after_calls(fresh_state(), calls).request_count, uptime_secs) == stats_text(
            requests_among(calls) as u64,
            uptime_secs,
        ),
    decreases calls.len(),
{
    reveal(Seq::filter);
    if calls.len() > 0 {
        statistics_tell_the_requests(calls.drop_last(), uptime_secs);
    }
}

/// Asking for the statistics or for the protocol changes nothing, so statistics asked for twice
/// within one second of uptime are the same.
pub proof fn reports_change_nothing(state: ServerState, uptime_secs: u64)
    ensures
        after_call(state, Call::GetStats) == state,
        after_call(state, Call::VerifyProtocol) == state,
        stats_text(after_call(state, Call::GetStats).request_count, uptime_secs) == stats_text(
            state.request_count,
            uptime_secs,
        ),
{
}

/// No `flaky` call finds its counter full while fewer than `u64::MAX` calls have been made: under
/// no key are there more attempts than calls.
pub proof fn flaky_counters_have_room(calls: Seq<Call>, key: Seq<char>)
    requires
        calls.len() < u64::MAX,
    ensures
        attempt_number(after_calls(fresh_state(), calls).attempts, key) <= calls.len() + 1,
    decreases calls.len(),
{
    if calls.len() > 0 {
        flaky_counters_have_room(calls.drop_last(), key);
    }
}

/// The statistics give the name and the version, and then two numbers whose digits stand for the
/// requests counted and the seconds of uptime, whatever they are.
pub proof fn statistics_give_their_numbers(request_count: u64, uptime_secs: u64)
    ensures
        exists|requests: Seq<char>, uptime: Seq<char>|
            {
                &&& all_digits(requests)
                &&& #[trigger] digits_value(requests) == request_count
                &&& all_digits(uptime)
                &&& #[trigger] digits_value(uptime) == uptime_secs
                &&& requests.len() > 0 && uptime.len() > 0
                &&& stats_text(request_count, uptime_secs) == "{\n  \"server\": \""@
                    + "fast-time-server"@ + "\",\n  \"version\": \""@ + "0.1.0"@
                    + "\",\n  \"requests_handled\": "@ + requests + ",\n  \"uptime_seconds\": "@
                    + uptime + "\n}"@
            },
{
    let requests = decimal(request_count as nat);
    let uptime = decimal(uptime_secs as nat);
    decimal_reads_back(request_count as nat);
    decimal_reads_back(uptime_secs as nat);
    assert(digits_value(requests) == request_count);
    assert(digits_value(uptime) == uptime_secs);
}

/// A text of digits, and what comes after it once it has ended, can be told apart.
proof fn lemma_digits_end(a: Seq<char>, b: Seq<char>, rest_a: Seq<char>, rest_b: Seq<char>)
    requires
        all_digits(a),
        all_digits(b),
        rest_a.len() > 0,
        rest_b.len() > 0,
        !('0' <= rest_a[0] <= '9'),
        !('0' <= rest_b[0] <= '9'),
        a + rest_a == b + rest_b,
    ensures
        a == b,
        rest_a == rest_b,
{
    let whole = a + rest_a;
    if a.len() < b.len() {
        assert(whole[a.len() as int] == rest_a[0]);
        assert((b + rest_b)[a.len() as int] == b[a.len() as int]);
    } else if b.len() < a.len() {
        assert(whole[b.len() as int] == a[b.len() as int]);
        assert((b + rest_b)[b.len() as int] == rest_b[0]);
    }
    assert(a =~= whole.take(a.len() as int));
    assert(b =~= (b + rest_b).take(a.len() as int));
    assert(rest_a =~= whole.skip(a.len() as int));
    assert(rest_b =~= (b + rest_b).skip(a.len() as int));
}

/// Statistics of different requests or different uptimes differ.
pub proof fn statistics_differ(
    request_count: u64,
    uptime_secs: u64,
    other_count: u64,
    other_uptime: u64,
)
    requires
        stats_text(request_count, uptime_secs) == stats_text(other_count, other_uptime),
    ensures
        request_count == other_count,
        uptime_secs == other_uptime,
{
    let head = "{\n  \"server\": \""@ + APP_NAME@ + "\",\n  \"version\": \""@ + APP_VERSION@
        + "\",\n  \"requests_handled\": "@;
    let between = ",\n  \"uptime_seconds\": "@;
    let end = "\n}"@;
    let a = decimal(request_count as nat);
    let b = decimal(other_count as nat);
    let c = decimal(uptime_secs as nat);
    let d = decimal(other_uptime as nat);
    decimal_reads_back(request_count as nat);
    decimal_reads_back(other_count as nat);
    decimal_reads_back(uptime_secs as nat);
    decimal_reads_back(other_uptime as nat);
    reveal_strlit(",\n  \"uptime_seconds\": ");
    reveal_strlit("\n}");
    let n = head.len() as int;
    let k = between.len() as int;
    let text = stats_text(request_count, uptime_secs);
    let other = stats_text(other_count, other_uptime);
    let rest = between + c + end;
    let other_rest = between + d + end;
    assert(text =~= head + (a + rest));
    assert(other =~= head + (b + other_rest));
    assert(a + rest =~= text.skip(n));
    assert(b + other_rest =~= other.skip(n));
    assert(rest[0] == between[0]);
    assert(other_rest[0] == between[0]);
    lemma_digits_end(a, b, rest, other_rest);
    assert(c + end =~= rest.skip(k));
    assert(d + end =~= other_rest.skip(k));
    assert(end[0] == '\n');
    lemma_digits_end(c, d, end, end);
}

/// Each finished call of `flaky`, `get_system_time`, `convert_time`, `schema_error` and
/// `schema_success` adds one to the requests, and so does an echo of at most a minute. No other
/// call does, and only `flaky` touches the attempts, under its key.
pub proof fn each_request_adds_one(state: ServerState, call: Call)
    requires
        state.request_count < u64::MAX,
    ensures
        ({
            let added = after_call(state, call).request_count - state.request_count;
            match call {
                Call::Echo { delay } => added == (if (delay matches Some(ms) && ms > 60_000) {
                    0int
                } else {
                    1int
                }),
                Call::Flaky { .. } => added == 1,
                Call::GetSystemTime => added == 1,
                Call::ConvertTime => added == 1,
                Call::SchemaError => added == 1,
                Call::SchemaSuccess => added == 1,
                Call::GetStats => added == 0,
                Call::VerifyProtocol => added == 0,
            }
        }),
        call matches Call::Flaky { key, .. } ==> after_call(state, call).attempts.remove(key)
            == state.attempts.remove(key),
        !(call is Flaky) ==> after_call(state, call).attempts == state.attempts,
{
    if let Call::Flaky { key, fail_times } = call {
        assert(after_attempt(state.attempts, key, fail_times).remove(key)
            =~= state.attempts.remove(key));
    }
}

/// After any number of calls that are all requests, the statistics of a server that was new
/// before them tell just that number.
pub proof fn requests_are_all_told(calls: Seq<Call>, uptime_secs: u64)
    requires
        calls.len() <= u64::MAX,
        forall|i: int|
            0 <= i < calls.len() ==> match #[trigger] calls[i] {
                Call::Echo { delay } => !(delay matches Some(ms) && ms > 60_000),
                Call::GetStats => false,
                Call::VerifyProtocol => false,
                _ => true,
            },
    ensures
        after_calls(fresh_state(), calls).request_count == calls.len(),
        exists|requests: Seq<char>, uptime: Seq<char>|
            {
                &&& all_digits(requests)
                &&& #[trigger] digits_value(requests) == calls.len()
                &&& all_digits(uptime)
                &&& #[trigger] digits_value(uptime) == uptime_secs
                &&& stats_text(after_calls(fresh_state(), calls).request_count, uptime_secs)
                    == "{\n  \"server\": \""@ + "fast-time-server"@ + "\",\n  \"version\": \""@
                    + "0.1.0"@ + "\",\n  \"requests_handled\": "@ + requests
                    + ",\n  \"uptime_seconds\": "@ + uptime + "\n}"@
            },
    decreases calls.len(),
{
    if calls.len() > 0 {
        requests_are_all_told(calls.drop_last(), uptime_secs);
        assert(calls.last() == calls[calls.len() - 1]);
        each_request_adds_one(after_calls(fresh_state(), calls.drop_last()), calls.last());
    }
    statistics_give_their_numbers(
        after_calls(fresh_state(), calls).request_count,
        uptime_secs,
    );
}

/// A `flaky` call is the next attempt after those kept under its key. Up to the number that is to
/// fail it fails, and is kept; beyond it succeeds, and nothing is kept. Its answer gives the number
/// of the attempt, and a failure the number that is to fail as well.
pub proof fn flaky_answers_number_the_attempts(
    attempts: Map<Seq<char>, u64>,
    key: Seq<char>,
    fail_times: u64,
    number: int,
)
    requires
        attempts.contains_key(key) ==> number == attempts[key] + 1,
        !attempts.contains_key(key) ==> number == 1,
        number <= u64::MAX,
    ensures
        attempt_number(attempts, key) == number,
        ({
            let reply = flaky_reply(attempts, key, fail_times);
            let after = after_attempt(attempts, key, fail_times);
            &&& reply.is_error <==> number <= fail_times
            &&& number <= fail_times ==> after.contains_key(key) && after[key] == number
            &&& number > fail_times ==> !after.contains_key(key)
            &&& after.remove(key) == attempts.remove(key)
        }),
        number <= fail_times ==> exists|attempt: Seq<char>, limit: Seq<char>|
            {
                &&& all_digits(attempt)
                &&& #[trigger] digits_value(attempt) == number
                &&& all_digits(limit)
                &&& #[trigger] digits_value(limit) == fail_times
                &&& flaky_reply(attempts, key, fail_times).text
                    == "flaky transient failure (attempt "@ + attempt + "/"@ + limit + ")"@
            },
        number > fail_times ==> exists|attempt: Seq<char>|
            {
                &&& all_digits(attempt)
                &&& #[trigger] digits_value(attempt) == number
                &&& flaky_reply(attempts, key, fail_times).text == "flaky recovered after "@
                    + attempt + " attempt(s)"@
            },
{
    decimal_reads_back(number as nat);
    decimal_reads_back(fail_times as nat);
    assert(digits_value(decimal(number as nat)) == number);
    assert(digits_value(decimal(fail_times as nat)) == fail_times);
    assert(after_attempt(attempts, key, fail_times).remove(key) =~= attempts.remove(key));
}

/// The time asked for in a zone of the database is told with the offset of that very zone at that
/// instant.
pub proof fn system_time_is_told_in_the_zone(tz: Seq<char>, now: (i64, u32))
    requires
        !(tz.len() == 3 && (tz[0] == 'U' || tz[0] == 'u') && (tz[1] == 'T' || tz[1] == 't')
            && (tz[2] == 'C' || tz[2] == 'c')),
        !(tz.len() == 3 && (tz[0] == 'G' || tz[0] == 'g') && (tz[1] == 'M' || tz[1] == 'm')
            && (tz[2] == 'T' || tz[2] == 't')),
        tz.len() > 0 ==> tz[0] != '+' && tz[0] != '-',
    ensures
        zone_known(tz) ==> system_time_reply(tz, zone_of(tz, database_zone(tz)), now) == (Reply {
            is_error: false,
            text: rfc3339_text(now.0, now.1, zone_offset(tz, now.0)),
        }),
        !zone_known(tz) ==> system_time_reply(tz, zone_of(tz, database_zone(tz)), now) == (Reply {
            is_error: true,
            text: "Invalid timezone '"@ + tz + "': "@ + ("Unknown timezone: "@ + tz),
        }),
{
    database_zones_stand_for_themselves(tz, now, now);
}

/// The time asked for without a zone is told in UTC, in the second that a clock shows.
pub proof fn system_time_is_told_in_utc(now: (i64, u32), named: String)
    ensures
        requested_zone(Some(named)) == named@,
        requested_zone(None) == seq!['U', 'T', 'C'],
        system_time_reply(
            requested_zone(None),
            zone_of(requested_zone(None), database_zone(requested_zone(None))),
            now,
        ) == (Reply {
            is_error: false,
            text: rfc3339_utc_text(shown_second(now).0, shown_second(now).1),
        }),
{
    reveal_strlit("UTC");
    assert("UTC"@ =~= seq!['U', 'T', 'C']);
    utc_letters_stand_for_utc("UTC"@, database_zone("UTC"@));
}

/// The time at an offset is told with that offset, and a zone that cannot be read is answered
/// with its name and the reason.
pub proof fn system_time_follows_the_zone(
    name: Seq<char>,
    seconds: int,
    reason: Seq<char>,
    now: (i64, u32),
)
    requires
        -86_400 < seconds < 86_400,
        seconds != 0,
    ensures
        system_time_reply(name, Ok(Zone::Fixed(seconds)), now) == (Reply {
            is_error: false,
            text: rfc3339_text(now.0, now.1, seconds as i32),
        }),
        system_time_reply(name, Err(reason), now).is_error,
        system_time_reply(name, Err(reason), now).text == "Invalid timezone '"@ + name + "': "@
            + reason,
        bad_zone_text(name, reason) == "Invalid timezone '"@ + name + "': "@ + reason,
{
}

/// A conversion to a zone of the database tells the instant that the time stands for with the
/// offset of that very zone at that instant; RFC 3339 text stands for its own.
pub proof fn conversions_tell_the_instant(
    time: Seq<char>,
    source: Zone,
    target: Seq<char>,
    utc: (i64, u32),
)
    requires
        time_of(time, source) == Some(utc),
        zone_known(target),
        !(target.len() == 3 && (target[0] == 'U' || target[0] == 'u') && (target[1] == 'T'
            || target[1] == 't')
            && (target[2] == 'C' || target[2] == 'c')),
        !(target.len() == 3 && (target[0] == 'G' || target[0] == 'g') && (target[1] == 'M'
            || target[1] == 'm')
            && (target[2] == 'T' || target[2] == 't')),
        target.len() > 0 ==> target[0] != '+' && target[0] != '-',
    ensures
        conversion_reply(time, Ok(source), zone_of(target, database_zone(target))) == (Reply {
            is_error: false,
            text: rfc3339_text(utc.0, utc.1, zone_offset(target, utc.0)),
        }),
        rfc3339_instant(time) is Some ==> rfc3339_instant(time) == Some(utc),
{
    database_zones_stand_for_themselves(target, utc, utc);
}

/// A conversion to an offset tells the instant with that offset, and one to UTC in the second
/// that a clock shows.
pub proof fn conversions_to_offsets_tell_the_instant(
    time: Seq<char>,
    source: Zone,
    seconds: int,
    utc: (i64, u32),
)
    requires
        time_of(time, source) == Some(utc),
        -86_400 < seconds < 86_400,
    ensures
        conversion_reply(time, Ok(source), Ok(Zone::Fixed(seconds))) == (Reply {
            is_error: false,
            text: if seconds == 0 {
                rfc3339_utc_text(shown_second(utc).0, shown_second(utc).1)
            } else {
                rfc3339_text(utc.0, utc.1, seconds as i32)
            },
        }),
{
}

/// Times that stand for the same instant are converted to the same answer, wherever they were
/// told.
pub proof fn conversions_depend_on_the_instant(
    time: Seq<char>,
    source: Zone,
    other_time: Seq<char>,
    other_source: Zone,
    target: Zone,
)
    requires
        time_of(time, source) is Some,
        time_of(time, source) == time_of(other_time, other_source),
    ensures
        conversion_reply(time, Ok(source), Ok(target)) == conversion_reply(
            other_time,
            Ok(other_source),
            Ok(target),
        ),
        !conversion_reply(time, Ok(source), Ok(target)).is_error,
{
}

/// A conversion fails just where the source zone, the target zone or the time cannot be read. It
/// tells the first of them, in that order, and gives the reason or the time as it was written.
pub proof fn conversions_tell_what_is_wrong(
    time: Seq<char>,
    source: Result<Zone, Seq<char>>,
    target: Result<Zone, Seq<char>>,
)
    ensures
        ({
            let reply = conversion_reply(time, source, target);
            &&& source matches Err(reason) ==> reply.is_error && reply.text
                == "invalid source timezone: "@ + reason
            &&& source is Ok ==> (target matches Err(reason) ==> reply.is_error && reply.text
                == "invalid target timezone: "@ + reason)
            &&& source matches Ok(from) ==> (target is Ok ==> (time_of(time, from) is None
                ==> reply.is_error && reply.text == "invalid time format: "@ + time))
            &&& reply.is_error ==> source is Err || target is Err || time_of(
                time,
                source->Ok_0,
            ) is None
        }),
{
}

/// An answer that keeps the instant shows the offset of the target zone and reads back.
pub proof fn kept_instants_are_shown(
    time: Seq<char>,
    source: Zone,
    target: Zone,
    answer: Seq<char>,
    utc: (i64, u32),
)
    requires
        time_of(time, source) == Some(utc),
        keeps_instant(time, Ok(source), Ok(target), answer),
    ensures
        shows_offset(target, utc, answer),
        reads_back(target, utc, answer),
{
}

} // verus!
