//! The filesystem server: bearer tokens, the bind address and the startup banner.

use vstd::prelude::*;
use vstd::slice::slice_subrange;
use vstd::string::*;
use vstd::utf8::*;

verus! {

/// Where the server listens unless told otherwise.
pub const DEFAULT_BIND_ADDRESS: &'static str = "127.0.0.1:8084";

/// The name of the server.
pub const APP_NAME: &'static str = "filesystem-server";

/// The version of the server.
pub const APP_VERSION: &'static str = "0.1.0";

/// The largest file that the server handles, in bytes.
pub const MAX_FILE_SIZE: u64 = 1_048_576;

/// Bearer token required on all HTTP requests when authentication is enabled.
#[derive(Debug)]
pub struct AuthToken(String);

impl View for AuthToken {
    type V = Seq<char>;

    closed spec fn view(&self) -> Seq<char> {
        self.0@
    }
}

impl Clone for AuthToken {
    fn clone(&self) -> (r: Self)
        ensures
            r@ == self@,
    {
        AuthToken(self.0.clone())
    }
}

/// Distinct texts have distinct encodings, and only the empty text has an empty one.
proof fn lemma_encoding_is_faithful(a: Seq<char>, b: Seq<char>)
    ensures
        encode_utf8(a) == encode_utf8(b) <==> a == b,
        encode_utf8(a).len() == 0 <==> a.len() == 0,
{
    encode_utf8_decode_utf8(a);
    encode_utf8_decode_utf8(b);
    encode_utf8_decode_utf8(Seq::<char>::empty());
    if encode_utf8(a).len() == 0 {
        assert(encode_utf8(a) =~= encode_utf8(Seq::<char>::empty()));
    }
}

/// Compares a token with what was sent for it. Every byte is looked at, whatever the ones
/// before it, so that the time taken tells nothing of where the two differ.
fn token_matches(expected: &[u8], provided: &[u8]) -> (r: bool)
    ensures
        r == (expected@.len() > 0 && expected@ == provided@),
{
    if expected.len() == 0 || expected.len() != provided.len() {
        return false;
    }
    let mut difference: u8 = 0;
    let mut i: usize = 0;
    while i < expected.len()
        invariant
            expected@.len() == provided@.len(),
            i <= expected@.len(),
            difference == 0 <==> forall|j: int| 0 <= j < i ==> expected@[j] == provided@[j],
        decreases expected@.len() - i,
    {
        let a: u8 = expected[i];
        let b: u8 = provided[i];
        let before: u8 = difference;
        difference = before | (a ^ b);
        proof {
            assert(before | (a ^ b) == 0 <==> before == 0 && a == b) by (bit_vector);
        }
        i = i + 1;
    }
    proof {
        if difference == 0 {
            assert(expected@ =~= provided@);
        }
    }
    difference == 0
}

impl AuthToken {
    /// The token with this text.
    pub fn new(token: &str) -> (r: Self)
        ensures
            r@ == token@,
    {
        AuthToken(token.to_string())
    }

    /// Whether `provided` is the token. An empty token is never valid.
    pub fn is_valid(&self, provided: &str) -> (r: bool)
        ensures
            r == (self@.len() > 0 && provided@ == self@),
            ({
                let header = encode_utf8("Bearer "@) + encode_utf8(provided@);
                all_visible(header) ==> (r <==> carries_token(self@, Some(header)))
            }),
    {
        proof {
            lemma_encoding_is_faithful(self.0@, provided@);
            let prefix = encode_utf8("Bearer "@);
            let header = prefix + encode_utf8(provided@);
            if header == prefix + encode_utf8(self.0@) {
                assert(encode_utf8(provided@) =~= header.skip(prefix.len() as int));
                assert(encode_utf8(self.0@) =~= header.skip(prefix.len() as int));
            }
        }
        token_matches(self.0.as_str().as_bytes(), provided.as_bytes())
    }
}

/// Whether a byte of a header value is text: a tab or a printable ASCII character.
pub open spec fn is_visible(b: u8) -> bool {
    b == 9 || 32 <= b < 127
}

/// Whether a header value is text.
pub open spec fn all_visible(value: Seq<u8>) -> bool {
    forall|i: int| 0 <= i < value.len() ==> is_visible(#[trigger] value[i])
}

/// Whether the value of an `Authorization` header carries the token: `Bearer`, a space and the
/// token, as header text, for a token that is not empty.
pub open spec fn carries_token(token: Seq<char>, header: Option<Seq<u8>>) -> bool {
    match header {
        Some(value) => {
            &&& token.len() > 0
            &&& all_visible(value)
            &&& value == encode_utf8("Bearer "@) + encode_utf8(token)
        },
        None => false,
    }
}

/// The answer to a request that does not carry the token.
#[derive(Clone, Copy, Debug, PartialEq, Eq)]
pub struct Refusal {
    pub status: u16,
    pub www_authenticate: &'static str,
    pub body: &'static str,
}

/// Whether the whole header value is text.
fn is_header_text(value: &[u8]) -> (r: bool)
    ensures
        r == all_visible(value@),
{
    let mut i: usize = 0;
    while i < value.len()
        invariant
            i <= value@.len(),
            forall|j: int| 0 <= j < i ==> is_visible(#[trigger] value@[j]),
        decreases value@.len() - i,
    {
        let b: u8 = value[i];
        if !(b == 9 || (32 <= b && b < 127)) {
            assert(!is_visible(value@[i as int]));
            return false;
        }
        i = i + 1;
    }
    true
}

/// What follows `prefix` in `value`, if `value` starts with it.
fn strip_prefix<'a>(value: &'a [u8], prefix: &[u8]) -> (r: Option<&'a [u8]>)
    ensures
        r is Some <==> prefix@.is_prefix_of(value@),
        r matches Some(rest) ==> value@ == prefix@ + rest@,
{
    if value.len() < prefix.len() {
        return None;
    }
    let mut i: usize = 0;
    while i < prefix.len()
        invariant
            prefix@.len() <= value@.len(),
            i <= prefix@.len(),
            forall|j: int| 0 <= j < i ==> prefix@[j] == value@[j],
        decreases prefix@.len() - i,
    {
        if value[i] != prefix[i] {
            assert(prefix@[i as int] != value@.subrange(0, prefix@.len() as int)[i as int]);
            return None;
        }
        i = i + 1;
    }
    let rest: &[u8] = slice_subrange(value, prefix.len(), value.len());
    assert(value@ =~= prefix@ + rest@);
    assert(prefix@ =~= value@.subrange(0, prefix@.len() as int));
    Some(rest)
}

/// Decides on a request by the value of its `Authorization` header: it passes if the header
/// carries the token, and is otherwise answered with status 401 and a `Bearer` challenge.
pub fn require_bearer_token(token: &AuthToken, header: Option<&[u8]>) -> (r: Result<(), Refusal>)
    ensures
        r is Ok <==> carries_token(
            token@,
            match header {
                Some(value) => Some(value@),
                None => None,
            },
        ),
        r matches Err(refusal) ==> refusal.status == 401 && refusal.www_authenticate@ == "Bearer"@
            && refusal.body@ == "Unauthorized"@,
{
    let authorized: bool = match header {
        Some(value) => {
            if !is_header_text(value) {
                false
            } else {
                let expected: &[u8] = token.0.as_str().as_bytes();
                proof {
                    lemma_encoding_is_faithful(token@, token@);
                }
                match strip_prefix(value, "Bearer ".as_bytes()) {
                    Some(provided) => {
                        let matched: bool = token_matches(expected, provided);
                        proof {
                            let prefix = encode_utf8("Bearer "@);
                            if value@ == prefix + expected@ {
                                assert(provided@ =~= value@.skip(prefix.len() as int));
                                assert(expected@ =~= value@.skip(prefix.len() as int));
                            }
                        }
                        matched
                    },
                    None => {
                        proof {
                            let prefix = encode_utf8("Bearer "@);
                            if value@ == prefix + expected@ {
                                assert(prefix =~= value@.subrange(0, prefix.len() as int));
                            }
                        }
                        false
                    },
                }
            }
        },
        None => false,
    };
    if authorized {
        Ok(())
    } else {
        Err(Refusal { status: 401, www_authenticate: "Bearer", body: "Unauthorized" })
    }
}

/// An empty token opens nothing, whatever header is sent.
pub proof fn empty_token_opens_nothing(header: Option<Seq<u8>>)
    ensures
        !carries_token(Seq::<char>::empty(), header),
{
}

/// One header value opens the server, and it opens it for one token: what carries a token
/// carries no other, and no other value carries it.
pub proof fn one_header_per_token(
    token: Seq<char>,
    header: Seq<u8>,
    other_token: Seq<char>,
    other_header: Seq<u8>,
)
    requires
        carries_token(token, Some(header)),
        carries_token(other_token, Some(other_header)),
    ensures
        token == other_token <==> header == other_header,
{
    let prefix = encode_utf8("Bearer "@);
    lemma_encoding_is_faithful(token, other_token);
    assert(encode_utf8(token) =~= header.skip(prefix.len() as int));
    assert(encode_utf8(other_token) =~= other_header.skip(prefix.len() as int));
}

/// An address to listen on.
#[derive(Clone, Copy, Debug, PartialEq, Eq)]
pub enum SocketAddr {
    V4 { octets: [u8; 4], port: u16 },
    V6 { segments: [u16; 8], port: u16, flowinfo: u32, scope_id: u32 },
}

impl SocketAddr {
    /// Whether the address is reachable from this machine only: `127.x.x.x`, or `::1`.
    pub open spec fn loopback(self) -> bool {
        match self {
            SocketAddr::V4 { octets, .. } => octets@[0] == 127,
            SocketAddr::V6 { segments, .. } => segments@ == seq![
                0u16,
                0u16,
                0u16,
                0u16,
                0u16,
                0u16,
                0u16,
                1u16,
            ],
        }
    }

    /// Whether the address is reachable from this machine only.
    pub fn is_loopback(&self) -> (r: bool)
        ensures
            r == self.loopback(),
    {
        match self {
            SocketAddr::V4 { octets, .. } => octets[0] == 127,
            SocketAddr::V6 { segments, .. } => {
                let r: bool = segments[0] == 0 && segments[1] == 0 && segments[2] == 0
                    && segments[3] == 0 && segments[4] == 0 && segments[5] == 0 && segments[6] == 0
                    && segments[7] == 1;
                proof {
                    let one = seq![0u16, 0u16, 0u16, 0u16, 0u16, 0u16, 0u16, 1u16];
                    if r {
                        assert(segments@ =~= one);
                    }
                    assert(one[0] == 0 && one[1] == 0 && one[2] == 0 && one[3] == 0 && one[4] == 0
                        && one[5] == 0 && one[6] == 0 && one[7] == 1);
                }
                r
            },
        }
    }

    /// The port.
    pub fn port(&self) -> (r: u16)
        ensures
            r == (match *self {
                SocketAddr::V4 { port, .. } => port,
                SocketAddr::V6 { port, .. } => port,
            }),
    {
        match self {
            SocketAddr::V4 { port, .. } => *port,
            SocketAddr::V6 { port, .. } => *port,
        }
    }
}

/// Why the server does not start on an address.
#[derive(Debug, PartialEq, Eq)]
pub enum BindError {
    /// The text is no address.
    Invalid { bind: String },
    /// Others could reach the address, and no token is set.
    Exposed { bind: String },
}

impl BindError {
    /// What is said of the error.
    pub open spec fn text(&self) -> Seq<char> {
        match self {
            BindError::Invalid { bind } => "Invalid bind address '"@ + bind@
                + "', expected IP:PORT"@,
            BindError::Exposed { bind } => "Refusing to bind to non-loopback address '"@ + bind@
                + "' without an auth token. Pass --auth-token (or set FILESYSTEM_SERVER_AUTH_TOKEN), or bind to a loopback address."@,
        }
    }

    /// The error as text.
    pub fn message(&self) -> (r: String)
        ensures
            r@ == self.text(),
    {
        match self {
            BindError::Invalid { bind } => {
                let mut r: String = "Invalid bind address '".to_string();
                r.append(bind.as_str());
                r.append("', expected IP:PORT");
                r
            },
            BindError::Exposed { bind } => {
                let mut r: String = "Refusing to bind to non-loopback address '".to_string();
                r.append(bind.as_str());
                r.append(
                    "' without an auth token. Pass --auth-token (or set FILESYSTEM_SERVER_AUTH_TOKEN), or bind to a loopback address.",
                );
                r
            },
        }
    }
}

/// Whether the server listens on an address.
pub open spec fn may_bind(addr: SocketAddr, auth_enabled: bool) -> bool {
    addr.loopback() || auth_enabled
}

/// Decides whether to listen on an address, given as text and as what the text was read as.
/// Without a token only an address that no other machine can reach will do.
pub fn resolve_bind_address(
    bind: &str,
    parsed: Option<SocketAddr>,
    auth_enabled: bool,
) -> (r: Result<SocketAddr, BindError>)
    ensures
        match parsed {
            None => r matches Err(BindError::Invalid { bind: b }) && b@ == bind@,
            Some(addr) => if addr.loopback() || auth_enabled {
                r == Ok::<SocketAddr, BindError>(addr)
            } else {
                r matches Err(BindError::Exposed { bind: b }) && b@ == bind@
            },
        },
        r is Ok <==> (parsed matches Some(addr) && may_bind(addr, auth_enabled)),
        r matches Ok(addr) ==> parsed == Some(addr),
{
    let addr: SocketAddr = match parsed {
        Some(addr) => addr,
        None => {
            return Err(BindError::Invalid { bind: bind.to_string() });
        },
    };
    if !addr.is_loopback() && !auth_enabled {
        return Err(BindError::Exposed { bind: bind.to_string() });
    }
    Ok(addr)
}

/// A list of texts as it is shown for debugging: in brackets, each quoted and escaped.
pub uninterp spec fn debug_list(items: Seq<Seq<char>>) -> Seq<char>;

/// Calls `format!` with `{:?}` on a slice of strings.
#[verifier::external_body]
fn format_debug_list(items: &[String]) -> (r: String)
    ensures
        r@ == debug_list(items@.map_values(|item: String| item@)),
{
    format!("{:?}", items)
}

/// What the banner says of authentication.
pub open spec fn auth_note(auth_enabled: bool) -> Seq<char> {
    if auth_enabled {
        "bearer token required"@
    } else {
        "disabled (loopback only)"@
    }
}

/// The text shown when the server starts.
pub open spec fn banner_text(roots: Seq<char>, bind: Seq<char>, auth_enabled: bool) -> Seq<char> {
    "----------- MCP SERVER -----------\n    App        :  "@ + APP_NAME@
        + "\n    Version    :  "@ + APP_VERSION@ + "\n    Roots      :  "@ + roots
        + "\n    Transport  :  Streamable-HTTP\n    Listening  :  http://"@ + bind
        + "/mcp\n    Auth       :  "@ + auth_note(auth_enabled) + "\n    "@
}

/// The text shown when the server starts, from the list of roots as it is shown.
pub fn render_banner(roots: &str, bind: &str, auth_enabled: bool) -> (r: String)
    ensures
        r@ == banner_text(roots@, bind@, auth_enabled),
{
    let mut r: String = "----------- MCP SERVER -----------\n    App        :  ".to_string();
    r.append(APP_NAME);
    r.append("\n    Version    :  ");
    r.append(APP_VERSION);
    r.append("\n    Roots      :  ");
    r.append(roots);
    r.append("\n    Transport  :  Streamable-HTTP\n    Listening  :  http://");
    r.append(bind);
    r.append("/mcp\n    Auth       :  ");
    if auth_enabled {
        r.append("bearer token required");
    } else {
        r.append("disabled (loopback only)");
    }
    r.append("\n    ");
    r
}

/// The text shown when the server starts.
pub fn startup_banner(roots: &[String], bind: &str, auth_enabled: bool) -> (r: String)
    ensures
        r@ == banner_text(
            debug_list(roots@.map_values(|item: String| item@)),
            bind@,
            auth_enabled,
        ),
{
    let shown: String = format_debug_list(roots);
    render_banner(shown.as_str(), bind, auth_enabled)
}

/// The header text `Bearer ` is ASCII, byte for character.
proof fn lemma_bearer_bytes()
    ensures
        encode_utf8("Bearer "@) == seq![66u8, 101u8, 97u8, 114u8, 101u8, 114u8, 32u8],
{
    reveal_strlit("Bearer ");
    let text = "Bearer "@;
    assert(is_ascii_chars(text));
    is_ascii_chars_encode_utf8(text);
    assert(text[0] as u8 == 66 && text[1] as u8 == 101 && text[2] as u8 == 97 && text[3] as u8
        == 114 && text[4] as u8 == 101 && text[5] as u8 == 114 && text[6] as u8 == 32);
    assert(encode_utf8(text) =~= seq![66u8, 101u8, 97u8, 114u8, 101u8, 114u8, 32u8]);
}

/// A request passes just where its header is the seven bytes of `Bearer ` and then the bytes of
/// the token, and the token is not empty and made of tabs and of bytes from 32 to 126 alone.
/// Every such token can be sent.
pub proof fn tokens_open_the_server(token: Seq<char>, header: Seq<u8>)
    ensures
        carries_token(token, Some(header)) <==> {
            &&& token.len() > 0
            &&& header == seq![66u8, 101u8, 97u8, 114u8, 101u8, 114u8, 32u8] + encode_utf8(token)
            &&& forall|i: int|
                0 <= i < encode_utf8(token).len() ==> {
                    let b = #[trigger] encode_utf8(token)[i];
                    b == 9 || 32 <= b <= 126
                }
        },
        !carries_token(token, None),
{
    lemma_bearer_bytes();
    let prefix = seq![66u8, 101u8, 97u8, 114u8, 101u8, 114u8, 32u8];
    let bytes = encode_utf8(token);
    if header == prefix + bytes {
        if all_visible(header) {
            assert forall|i: int| 0 <= i < bytes.len() implies {
                let b = #[trigger] bytes[i];
                b == 9 || 32 <= b <= 126
            } by {
                assert(header[i + 7] == bytes[i]);
            }
        }
        if forall|i: int|
            0 <= i < bytes.len() ==> {
                let b = #[trigger] bytes[i];
                b == 9 || 32 <= b <= 126
            } {
            assert forall|i: int| 0 <= i < header.len() implies is_visible(#[trigger] header[i]) by {
                if i < 7 {
                    assert(header[i] == prefix[i]);
                } else {
                    assert(header[i] == bytes[i - 7]);
                }
            }
        }
    }
}

/// Every token of tabs and printable ASCII characters that is not empty opens the server when it
/// is sent, whichever characters it has.
pub proof fn printable_tokens_can_be_sent(token: Seq<char>)
    requires
        token.len() > 0,
        forall|i: int|
            0 <= i < token.len() ==> (#[trigger] token[i] == '\t' || ' ' <= token[i] <= '~'),
    ensures
        carries_token(
            token,
            Some(seq![66u8, 101u8, 97u8, 114u8, 101u8, 114u8, 32u8] + encode_utf8(token)),
        ),
{
    assert(is_ascii_chars(token));
    is_ascii_chars_encode_utf8(token);
    let bytes = encode_utf8(token);
    assert forall|i: int| 0 <= i < bytes.len() implies {
        let b = #[trigger] bytes[i];
        b == 9 || 32 <= b <= 126
    } by {
        assert(token[i] as u8 == bytes[i]);
    }
    tokens_open_the_server(
        token,
        seq![66u8, 101u8, 97u8, 114u8, 101u8, 114u8, 32u8] + encode_utf8(token),
    );
}

/// Of the addresses of version 4 those with 127 in front are loopback, and of those of version 6
/// only the one whose number is 1. The port, the flow and the scope do not matter.
pub proof fn loopback_addresses(
    octets: [u8; 4],
    segments: [u16; 8],
    port: u16,
    flowinfo: u32,
    scope_id: u32,
)
    ensures
        (SocketAddr::V4 { octets, port }).loopback() <==> 127 * 0x100_0000 <= octets@[0] * 0x100_0000
            + octets@[1] * 0x1_0000 + octets@[2] * 0x100 + octets@[3] < 128 * 0x100_0000,
        (SocketAddr::V6 { segments, port, flowinfo, scope_id }).loopback() <==> (segments@[7] == 1
            && forall|i: int| 0 <= i < 7 ==> #[trigger] segments@[i] == 0),
{
    let one = seq![0u16, 0u16, 0u16, 0u16, 0u16, 0u16, 0u16, 1u16];
    if segments@[7] == 1 && forall|i: int| 0 <= i < 7 ==> #[trigger] segments@[i] == 0 {
        assert(segments@ =~= one);
    }
    if segments@ == one {
        assert forall|i: int| 0 <= i < 7 implies #[trigger] segments@[i] == 0 by {
            assert(one[i] == 0);
        }
        assert(one[7] == 1);
    }
}

/// Without a token the server listens on no address that another machine can reach. With one it
/// listens on any, and on a loopback address with or without.
pub proof fn nothing_is_exposed_without_a_token(addr: SocketAddr)
    ensures
        may_bind(addr, false) <==> addr.loopback(),
        may_bind(addr, true),
{
}

/// A refusal to listen quotes the address as it was given, and says what is wrong with it.
pub proof fn bind_errors_quote_the_address(bind: String)
    ensures
        (BindError::Invalid { bind }).text() == "Invalid bind address '"@ + bind@
            + "', expected IP:PORT"@,
        (BindError::Exposed { bind }).text() == "Refusing to bind to non-loopback address '"@ + bind@
            + "' without an auth token. Pass --auth-token (or set FILESYSTEM_SERVER_AUTH_TOKEN), or bind to a loopback address."@,
{
}

/// The banner gives the name, the version, the roots and the address as they are, and tells a
/// server with a token from one without.
pub proof fn the_banner_tells_how_the_server_runs(roots: Seq<char>, bind: Seq<char>)
    ensures
        banner_text(roots, bind, true)
            == "----------- MCP SERVER -----------\n    App        :  "@ + "filesystem-server"@
            + "\n    Version    :  "@ + "0.1.0"@ + "\n    Roots      :  "@ + roots
            + "\n    Transport  :  Streamable-HTTP\n    Listening  :  http://"@ + bind
            + "/mcp\n    Auth       :  "@ + "bearer token required"@ + "\n    "@,
        banner_text(roots, bind, false)
            == "----------- MCP SERVER -----------\n    App        :  "@ + "filesystem-server"@
            + "\n    Version    :  "@ + "0.1.0"@ + "\n    Roots      :  "@ + roots
            + "\n    Transport  :  Streamable-HTTP\n    Listening  :  http://"@ + bind
            + "/mcp\n    Auth       :  "@ + "disabled (loopback only)"@ + "\n    "@,
{
}

} // verus!
