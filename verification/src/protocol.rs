//! The revisions of the protocol that are served.

use vstd::prelude::*;
use vstd::string::*;

verus! {

/// The revision that negotiates in a handshake and keeps a session.
pub const MCP_PROTOCOL_VERSION: &'static str = "2025-11-25";

/// The revision that states its version with each request and keeps nothing.
pub const MCP_PROTOCOL_VERSION_MODERN: &'static str = "2026-07-28";

/// A revision of the protocol, by its date.
#[derive(Debug, PartialEq, Eq)]
pub struct ProtocolVersion {
    text: String,
}

impl View for ProtocolVersion {
    type V = Seq<char>;

    closed spec fn view(&self) -> Seq<char> {
        self.text@
    }
}

impl ProtocolVersion {
    /// The revision with this text, whether or not it is served.
    pub fn new(text: &str) -> (r: Self)
        ensures
            r@ == text@,
    {
        ProtocolVersion { text: text.to_string() }
    }

    /// The text of the revision.
    pub fn as_str(&self) -> (r: &str)
        ensures
            r@ == self@,
    {
        self.text.as_str()
    }
}

/// Which revision a request was served under, and how.
#[derive(Debug, PartialEq, Eq)]
pub struct VerifyProtocolResult {
    pub protocol_version: String,
    pub transport: String,
}

/// The revision of a request, and whether the request stands alone or in a session.
pub open spec fn report_of(
    meta_version: Option<Seq<char>>,
    negotiated: Option<Seq<char>>,
) -> (Seq<char>, Seq<char>) {
    match (meta_version, negotiated) {
        (Some(version), _) => (version, "stateless"@),
        (None, Some(version)) => (version, "session"@),
        (None, None) => ("unknown"@, "session"@),
    }
}

/// Finds the revision of one request: the one that the request states, else the one that its
/// session agreed on.
pub fn protocol_report(
    meta_version: Option<ProtocolVersion>,
    negotiated: Option<ProtocolVersion>,
) -> (r: VerifyProtocolResult)
    ensures
        r.protocol_version@ == (match (meta_version, negotiated) {
            (Some(version), _) => version@,
            (None, Some(version)) => version@,
            (None, None) => "unknown"@,
        }),
        r.transport@ == (if meta_version is Some {
            "stateless"@
        } else {
            "session"@
        }),
        (r.protocol_version@, r.transport@) == report_of(
            match meta_version {
                Some(version) => Some(version@),
                None => None,
            },
            match negotiated {
                Some(version) => Some(version@),
                None => None,
            },
        ),
{
    if let Some(version) = meta_version {
        return VerifyProtocolResult {
            protocol_version: version.text,
            transport: "stateless".to_string(),
        };
    }
    let protocol_version: String = match negotiated {
        Some(version) => version.text,
        None => "unknown".to_string(),
    };
    VerifyProtocolResult { protocol_version, transport: "session".to_string() }
}

/// A request that states its revision is served under that one, whatever its session agreed on;
/// one that does not is served under the one agreed on, if there is one. How it was served tells
/// the two apart.
pub proof fn the_stated_revision_wins(
    stated: Seq<char>,
    agreed: Seq<char>,
    any: Option<Seq<char>>,
)
    ensures
        report_of(Some(stated), any).0 == stated,
        report_of(Some(stated), any).1 == "stateless"@,
        report_of(None, Some(agreed)).0 == agreed,
        report_of(None, any).1 == "session"@,
        report_of(None, None).0 == "unknown"@,
        report_of(Some(stated), any).1 != report_of(None, any).1,
{
    reveal_strlit("stateless");
    reveal_strlit("session");
}

} // verus!
