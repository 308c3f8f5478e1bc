use mcp_servers::filesystem::{
    render_banner, require_bearer_token, resolve_bind_address, startup_banner, AuthToken,
    BindError, Refusal, SocketAddr,
};

fn v4(octets: [u8; 4], port: u16) -> Option<SocketAddr> {
    Some(SocketAddr::V4 { octets, port })
}

fn v6(segments: [u16; 8], port: u16) -> Option<SocketAddr> {
    Some(SocketAddr::V6 { segments, port, flowinfo: 0, scope_id: 0 })
}

/// The address that a text stands for.
fn read_address(bind: &str) -> Option<SocketAddr> {
    match bind {
        "127.0.0.1:8084" => v4([127, 0, 0, 1], 8084),
        "0.0.0.0:8084" => v4([0, 0, 0, 0], 8084),
        "192.168.1.10:9000" => v4([192, 168, 1, 10], 9000),
        "[::1]:8084" => v6([0, 0, 0, 0, 0, 0, 0, 1], 8084),
        "[::]:1" => v6([0; 8], 1),
        "not-an-address" => None,
        _ => panic!("no reading of {}", bind),
    }
}

fn resolve(bind: &str, auth_enabled: bool) -> Result<SocketAddr, BindError> {
    resolve_bind_address(bind, read_address(bind), auth_enabled)
}

#[test]
fn test_resolve_bind_address_loopback_without_token() {
    let addr = resolve("127.0.0.1:8084", false).unwrap();
    assert!(addr.is_loopback());
    assert_eq!(addr.port(), 8084);
}

#[test]
fn test_resolve_bind_address_ipv6_loopback_without_token() {
    let addr = resolve("[::1]:8084", false).unwrap();
    assert!(addr.is_loopback());
}

#[test]
fn test_resolve_bind_address_wildcard_requires_token() {
    // The wildcard address with no authentication must refuse to start.
    let result = resolve("0.0.0.0:8084", false);
    assert!(result.is_err());
    assert!(result.unwrap_err().message().contains("non-loopback"));
}

#[test]
fn test_resolve_bind_address_wildcard_with_token() {
    let addr = resolve("0.0.0.0:8084", true).unwrap();
    assert_eq!(addr.port(), 8084);
}

#[test]
fn test_resolve_bind_address_external_ip_requires_token() {
    assert!(resolve("192.168.1.10:9000", false).is_err());
    assert!(resolve("192.168.1.10:9000", true).is_ok());
}

#[test]
fn test_resolve_bind_address_invalid() {
    assert!(resolve("not-an-address", true).is_err());
}

#[test]
fn only_loopback_addresses_need_no_token() {
    let loopback = [
        v4([127, 0, 0, 1], 1),
        v4([127, 255, 1, 2], 1),
        v6([0, 0, 0, 0, 0, 0, 0, 1], 1),
    ];
    let exposed = [
        v4([126, 0, 0, 1], 1),
        v4([128, 0, 0, 1], 1),
        v4([0, 0, 0, 127], 1),
        v6([0; 8], 1),
        v6([0, 0, 0, 0, 0, 0, 0, 2], 1),
        v6([1, 0, 0, 0, 0, 0, 0, 1], 1),
        v6([0, 0, 0, 0, 0, 0xffff, 0x7f00, 1], 1),
    ];
    for address in loopback {
        assert!(address.unwrap().is_loopback());
        assert_eq!(resolve_bind_address("b", address, false), Ok(address.unwrap()));
        assert_eq!(resolve_bind_address("b", address, true), Ok(address.unwrap()));
    }
    for address in exposed {
        assert!(!address.unwrap().is_loopback());
        assert_eq!(
            resolve_bind_address("b", address, false),
            Err(BindError::Exposed { bind: "b".to_string() })
        );
        assert_eq!(resolve_bind_address("b", address, true), Ok(address.unwrap()));
    }
}

#[test]
fn bind_errors_name_the_address() {
    let error = resolve("not-an-address", true).unwrap_err();
    assert_eq!(error.message(), "Invalid bind address 'not-an-address', expected IP:PORT");
    let error = resolve("[::]:1", false).unwrap_err();
    assert_eq!(
        error.message(),
        "Refusing to bind to non-loopback address '[::]:1' without an auth token. \
         Pass --auth-token (or set FILESYSTEM_SERVER_AUTH_TOKEN), or bind to a loopback address."
    );
    assert_eq!(error, BindError::Exposed { bind: "[::]:1".to_string() });
}

#[test]
fn test_auth_token_comparison() {
    let token = AuthToken::new("s3cret");
    assert!(token.is_valid("s3cret"));
    assert!(!token.is_valid("wrong"));
    assert!(!token.is_valid("s3cret-extra"));
    assert!(!token.is_valid(""));
}

#[test]
fn test_auth_token_empty_never_valid() {
    // Security: an empty configured token must not authenticate the
    // empty bearer string.
    let token = AuthToken::new("");
    assert!(!token.is_valid(""));
}

#[test]
fn tokens_differ_in_any_byte() {
    let token = AuthToken::new("p\u{e4}ss");
    assert!(token.is_valid("p\u{e4}ss"));
    assert!(token.clone().is_valid("p\u{e4}ss"));
    assert!(!token.is_valid("p\u{e5}ss"));
    assert!(!token.is_valid("x\u{e4}ss"));
    assert!(!token.is_valid("p\u{e4}st"));
    assert!(!token.is_valid("P\u{e4}ss"));
}

#[test]
fn the_token_opens_the_server() {
    let token = AuthToken::new("s3cret");
    assert_eq!(require_bearer_token(&token, Some(b"Bearer s3cret")), Ok(()));
}

#[test]
fn every_other_header_is_refused() {
    let token = AuthToken::new("s3cret");
    let refusal = Refusal { status: 401, www_authenticate: "Bearer", body: "Unauthorized" };
    assert_eq!(require_bearer_token(&token, None), Err(refusal));
    let headers: [&[u8]; 9] = [
        b"Bearer wrong",
        b"Bearer s3cret ",
        b"Bearer  s3cret",
        b"bearer s3cret",
        b"Bearers3cret",
        b"Bearer ",
        b"Bearer",
        b"s3cret",
        b"",
    ];
    for header in headers {
        assert_eq!(require_bearer_token(&token, Some(header)), Err(refusal));
    }
}

#[test]
fn an_empty_token_opens_nothing() {
    let token = AuthToken::new("");
    let headers: [&[u8]; 3] = [b"Bearer ", b"Bearer", b""];
    for header in headers {
        assert!(require_bearer_token(&token, Some(header)).is_err());
    }
}

#[test]
fn a_header_that_is_not_text_is_refused() {
    let token = AuthToken::new("p\u{e4}ss");
    let header = "Bearer p\u{e4}ss";
    assert!(require_bearer_token(&token, Some(header.as_bytes())).is_err());
    let token = AuthToken::new("a\tb");
    assert_eq!(require_bearer_token(&token, Some(b"Bearer a\tb")), Ok(()));
    let token = AuthToken::new("a\nb");
    assert!(require_bearer_token(&token, Some(b"Bearer a\nb")).is_err());
}

#[test]
fn the_banner_shows_how_the_server_runs() {
    let roots = vec!["/srv".to_string(), "a \"b\"\n".to_string()];
    assert_eq!(
        startup_banner(&roots, "127.0.0.1:8084", false),
        "----------- MCP SERVER -----------
    App        :  filesystem-server
    Version    :  0.1.0
    Roots      :  [\"/srv\", \"a \\\"b\\\"\\n\"]
    Transport  :  Streamable-HTTP
    Listening  :  http://127.0.0.1:8084/mcp
    Auth       :  disabled (loopback only)
    "
    );
    assert!(render_banner("[]", "0.0.0.0:1", true)
        .ends_with("http://0.0.0.0:1/mcp\n    Auth       :  bearer token required\n    "));
}
