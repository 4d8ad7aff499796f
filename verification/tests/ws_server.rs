//! Tokens, handshakes, frames and connections.

use std::sync::mpsc::sync_channel;

use rswebtwain::config::{AgentConfig, ServerConfig};
use rswebtwain::protocol::{AgentMessage, ClientMessage, ErrorCode};
use rswebtwain::scanner::run::client_gone;
use rswebtwain::ws_server::{
    event_step, from_hex, incoming_step, parse_token_from_query, percent_decode,
    percent_decode_bytes, reject_response, send_binary, validate_handshake, ConnectionStep,
    EventOutcome, EventStep, Incoming, OriginPolicy, OutgoingMessage, Rejection, WsServerConfig,
    CHUNK_BYTES, DEFAULT_WS_PORT, RESPONSE_CHANNEL_CAPACITY,
};

#[test]
fn parse_token_basic() {
    assert_eq!(parse_token_from_query("token=abc123"), Some("abc123".to_string()));
}

#[test]
fn parse_token_among_params() {
    assert_eq!(
        parse_token_from_query("foo=bar&token=secret&baz=1"),
        Some("secret".to_string())
    );
}

#[test]
fn parse_token_missing() {
    assert_eq!(parse_token_from_query("foo=bar"), None);
}

#[test]
fn parse_token_percent_encoded() {
    assert_eq!(
        parse_token_from_query("token=hello%20world"),
        Some("hello world".to_string())
    );
}

#[test]
fn percent_decode_special_chars() {
    assert_eq!(percent_decode("a%2Fb%3Dc"), "a/b=c");
}

#[test]
fn percent_decode_passthrough() {
    assert_eq!(percent_decode("no-encoding"), "no-encoding");
}

#[test]
fn percent_signs_that_escape_nothing_stay() {
    assert_eq!(percent_decode("100%"), "100%");
    assert_eq!(percent_decode("%4"), "%4");
    assert_eq!(percent_decode("%zz%41"), "%zzA");
    assert_eq!(percent_decode("%%41"), "%A");
}

#[test]
fn escapes_that_are_no_utf8_are_replaced() {
    assert_eq!(percent_decode("a%FFb"), "a\u{FFFD}b");
    assert_eq!(percent_decode("%C3%A9"), "\u{e9}");
    assert_eq!(percent_decode_bytes(b"%ff%00"), vec![0xFF, 0x00]);
}

#[test]
fn hex_pairs_take_both_cases() {
    assert_eq!(from_hex(b'f', b'F'), Some(255));
    assert_eq!(from_hex(b'0', b'9'), Some(9));
    assert_eq!(from_hex(b'g', b'0'), None);
    assert_eq!(from_hex(b'0', b'/'), None);
}

#[test]
fn every_byte_survives_escaping() {
    let mut query = "token=".to_string();
    let mut expected = Vec::new();
    for b in 0u8..=255 {
        query.push_str(&format!("%{b:02X}"));
        expected.push(b);
    }
    assert_eq!(percent_decode_bytes(&query.as_bytes()[6..]), expected);
}

#[test]
fn any_choice_of_escapes_gives_the_token_back() {
    let token = "a/b=c%d&e";
    for written in [
        "a/b=c%25d%26e",
        "%61/b%3Dc%25d%26e",
        "a%2fb%3dc%25d%26%65",
        "a%2Fb%3dc%25%64%26e",
        "%61%2F%62%3D%63%25%64%26%65",
    ] {
        let query = format!("x=1&token={written}&y=2");
        assert_eq!(parse_token_from_query(&query).as_deref(), Some(token), "{written}");
    }
}

#[test]
fn tokens_keep_their_equal_signs() {
    assert_eq!(parse_token_from_query("token=a=b&token=c"), Some("a=b".to_string()));
    assert_eq!(parse_token_from_query("token="), Some(String::new()));
    assert_eq!(parse_token_from_query("token"), None);
    assert_eq!(parse_token_from_query("tokens=1&Token=2&xtoken=3"), None);
    assert_eq!(parse_token_from_query("&&token=x"), Some("x".to_string()));
    assert_eq!(parse_token_from_query(""), None);
}

// --- Handshakes -----------------------------------------------------------

fn restricted(allow_localhost: bool, extra: &[&str]) -> WsServerConfig {
    WsServerConfig {
        port: 0,
        origin_policy: OriginPolicy::Restricted {
            allow_localhost,
            extra: extra.iter().map(|s| s.to_string()).collect(),
        },
        auth_token: None,
    }
}

fn with_token(token: &str) -> WsServerConfig {
    WsServerConfig {
        port: 0,
        origin_policy: OriginPolicy::AllowAll,
        auth_token: Some(token.to_string()),
    }
}

fn refusal(r: Result<(), Rejection>) -> (u16, String) {
    let rejection = r.expect_err("must be refused");
    (rejection.status, rejection.body)
}

#[test]
fn auth_token_valid_connects() {
    assert!(validate_handshake(None, Some("token=secret"), &with_token("secret")).is_ok());
}

#[test]
fn auth_token_invalid_rejected() {
    let r = validate_handshake(None, Some("token=wrong"), &with_token("secret"));
    assert_eq!(refusal(r), (401, "Unauthorized: Invalid or missing token".to_string()));
}

#[test]
fn auth_token_missing_rejected() {
    assert_eq!(refusal(validate_handshake(None, None, &with_token("secret"))).0, 401);
    assert_eq!(refusal(validate_handshake(None, Some("a=b"), &with_token("secret"))).0, 401);
}

#[test]
fn origin_allowed_connects() {
    let config = restricted(false, &["https://app.example.com"]);
    assert!(validate_handshake(Some("https://app.example.com"), None, &config).is_ok());
}

#[test]
fn origin_disallowed_rejected() {
    let config = restricted(false, &["https://app.example.com"]);
    let r = validate_handshake(Some("https://evil.example.com"), None, &config);
    assert_eq!(refusal(r), (403, "Forbidden: Origin not allowed".to_string()));
}

#[test]
fn origin_missing_rejected() {
    let config = restricted(false, &["https://app.example.com"]);
    let r = validate_handshake(None, None, &config);
    assert_eq!(refusal(r), (403, "Forbidden: Origin header required".to_string()));
}

#[test]
fn restricted_allows_http_localhost() {
    assert!(validate_handshake(Some("http://localhost:4200"), None, &restricted(true, &[])).is_ok());
}

#[test]
fn restricted_allows_127_0_0_1() {
    assert!(validate_handshake(Some("http://127.0.0.1:8080"), None, &restricted(true, &[])).is_ok());
}

#[test]
fn restricted_allows_ipv6_loopback() {
    assert!(validate_handshake(Some("http://[::1]:4200"), None, &restricted(true, &[])).is_ok());
}

#[test]
fn restricted_rejects_internet_origin() {
    let r = validate_handshake(Some("https://evil.example.com"), None, &restricted(true, &[]));
    assert_eq!(refusal(r).0, 403);
}

#[test]
fn restricted_rejects_missing_origin() {
    assert_eq!(refusal(validate_handshake(None, None, &restricted(true, &[]))).0, 403);
}

#[test]
fn restricted_extra_origin_exact_match_allowed() {
    let config = restricted(false, &["https://app.example.com"]);
    assert!(validate_handshake(Some("https://app.example.com"), None, &config).is_ok());
    let r = validate_handshake(Some("http://localhost:4200"), None, &config);
    assert_eq!(refusal(r).0, 403);
    let r = validate_handshake(Some("https://app.example.com/"), None, &config);
    assert_eq!(refusal(r).0, 403);
}

#[test]
fn allow_all_accepts_anything() {
    let config = WsServerConfig::default();
    assert!(validate_handshake(Some("https://anything.example.com"), None, &config).is_ok());
    assert!(validate_handshake(None, None, &config).is_ok());
    assert!(validate_handshake(Some("not a url"), None, &config).is_ok());
}

#[test]
fn default_config_accepts_a_browser_connection_without_a_token() {
    let config = WsServerConfig::from_config(AgentConfig::default(), false);
    assert!(config.auth_token.is_none(), "a default config must not demand a token");
    assert!(validate_handshake(Some("http://localhost:4200"), None, &config).is_ok());
    assert_eq!(refusal(validate_handshake(Some("https://example.com"), None, &config)).0, 403);
}

#[test]
fn unexpected_token_is_ignored_when_none_is_configured() {
    let config = WsServerConfig::from_config(AgentConfig::default(), false);
    assert!(validate_handshake(
        Some("http://localhost:4200"),
        Some("token=unnecessary"),
        &config
    )
    .is_ok());
}

#[test]
fn malformed_origins_are_refused() {
    let r = validate_handshake(Some("null"), None, &restricted(true, &["null"]));
    assert_eq!(refusal(r), (403, "Forbidden: Malformed Origin".to_string()));
}

#[test]
fn other_schemes_of_this_machine_are_refused() {
    let config = restricted(true, &[]);
    assert_eq!(refusal(validate_handshake(Some("ftp://localhost"), None, &config)).0, 403);
    assert_eq!(
        refusal(validate_handshake(Some("http://localhost.example.com"), None, &config)).0,
        403
    );
}

#[test]
fn local_origins_connect_on_every_port() {
    let config = restricted(true, &[]);
    for scheme in ["http", "https"] {
        for host in ["localhost", "127.0.0.1", "[::1]"] {
            let bare = format!("{scheme}://{host}");
            assert!(validate_handshake(Some(&bare), None, &config).is_ok(), "{bare}");
            for port in [0u16, 1, 80, 443, 8080, 65535] {
                let origin = format!("{bare}:{port}");
                assert!(validate_handshake(Some(&origin), None, &config).is_ok(), "{origin}");
            }
        }
    }
}

#[test]
fn the_origin_is_judged_before_the_token() {
    let mut config = restricted(true, &[]);
    config.auth_token = Some("secret".to_string());
    let r = validate_handshake(Some("https://evil.example.com"), Some("token=secret"), &config);
    assert_eq!(refusal(r).0, 403);
    let r = validate_handshake(Some("http://localhost"), Some("token=nope"), &config);
    assert_eq!(refusal(r).0, 401);
}

#[test]
fn development_builds_accept_any_origin() {
    let config = AgentConfig {
        server: ServerConfig {
            port: 9000,
            allow_localhost: false,
            extra_origins: vec!["https://a.example".to_string()],
            auth_token: Some("t".to_string()),
        },
    };
    let server = WsServerConfig::from_config(config, true);
    assert!(matches!(server.origin_policy, OriginPolicy::AllowAll));
    assert_eq!(server.port, 9000);
    assert_eq!(server.auth_token, Some("t".to_string()));
    assert_eq!(WsServerConfig::default().port, DEFAULT_WS_PORT);
}

#[test]
fn rejections_say_what_they_are_told() {
    let r = reject_response(418, "no coffee");
    assert_eq!((r.status, r.body.as_str()), (418, "no coffee"));
}

// --- Frames ---------------------------------------------------------------

fn all_frames(payload: &[u8]) -> Vec<Vec<u8>> {
    let mut frames = Vec::new();
    let mut sent = 0;
    while let Some(frame) = send_binary(payload, sent) {
        sent += frame.len();
        frames.push(frame);
    }
    frames
}

#[test]
fn send_binary_splits_payloads_into_chunks_and_applies_backpressure() {
    // Two and a half chunks.
    let payload = vec![7u8; CHUNK_BYTES * 2 + 5];
    let frames = all_frames(&payload);
    assert!(frames.iter().all(|f| f.len() <= CHUNK_BYTES), "frame exceeded the chunk size");
    assert_eq!(frames.len(), 3, "expected two full chunks and one remainder");
    let received: Vec<u8> = frames.concat();
    assert_eq!(received.len(), CHUNK_BYTES * 2 + 5);
    assert!(received.iter().all(|&b| b == 7));
}

#[test]
fn send_binary_of_an_exact_multiple_emits_no_empty_trailing_frame() {
    let payload = vec![1u8; CHUNK_BYTES * 2];
    let frames = all_frames(&payload);
    assert!(frames.iter().all(|f| !f.is_empty()), "empty frame emitted");
    assert_eq!(frames.len(), 2);
}

#[test]
fn send_binary_reports_failure_when_the_client_is_gone() {
    let (tx, rx) = sync_channel::<OutgoingMessage>(RESPONSE_CHANNEL_CAPACITY);
    drop(rx);
    let payload = [1, 2, 3];
    let mut sent = 0;
    let mut result = Ok(());
    while let Some(frame) = send_binary(&payload, sent) {
        sent += frame.len();
        if tx.send(OutgoingMessage::Binary(frame)).is_err() {
            result = Err(client_gone());
            break;
        }
    }
    assert_eq!(
        result.unwrap_err().message(),
        "Sidecar error: client disconnected during transfer"
    );
}

#[test]
fn frames_keep_the_order_of_the_bytes() {
    let payload: Vec<u8> = (0..CHUNK_BYTES + 1000).map(|i| (i % 251) as u8).collect();
    let frames = all_frames(&payload);
    assert_eq!(frames.len(), 2);
    assert_eq!(frames[0].len(), CHUNK_BYTES);
    assert_eq!(frames.concat(), payload);
    assert!(all_frames(&[]).is_empty());
}

// --- One connection -------------------------------------------------------

#[test]
fn invalid_json_returns_error() {
    match incoming_step(Incoming::Text(Err("expected value".to_string()))) {
        ConnectionStep::Answer(AgentMessage::Error { id, code, message }) => {
            assert_eq!(id, "");
            assert_eq!(code, ErrorCode::InvalidRequest);
            assert_eq!(message, "Invalid message format: expected value");
        }
        other => panic!("unexpected {other:?}"),
    }
}

#[test]
fn frames_of_each_type_are_told_apart() {
    let message = ClientMessage::Ping { id: "p".to_string() };
    assert!(matches!(
        incoming_step(Incoming::Text(Ok(message))),
        ConnectionStep::Dispatch(ClientMessage::Ping { .. })
    ));
    match incoming_step(Incoming::Ping(vec![1, 2])) {
        ConnectionStep::Pong(payload) => assert_eq!(payload, vec![1, 2]),
        other => panic!("unexpected {other:?}"),
    }
    assert!(matches!(incoming_step(Incoming::Other), ConnectionStep::Ignore));
    assert!(matches!(incoming_step(Incoming::Close), ConnectionStep::Close));
    assert!(matches!(incoming_step(Incoming::Failed), ConnectionStep::Close));
}

#[test]
fn lagging_clients_stay_connected() {
    assert!(matches!(event_step::<AgentMessage>(EventOutcome::Lagged), EventStep::Skip));
    assert!(matches!(event_step::<AgentMessage>(EventOutcome::Closed), EventStep::Stop));
    assert!(matches!(
        event_step(EventOutcome::Message(AgentMessage::ServerShutdown)),
        EventStep::Send(AgentMessage::ServerShutdown)
    ));
}
