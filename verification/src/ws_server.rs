//! The WebSocket server's rules: who may connect, what becomes of each frame, and
//! how payloads are cut into frames.
//!
//! The server binds to the loopback address and validates the `Origin` header, to
//! keep pages of other sites out. Sockets are the caller's part.

use vstd::prelude::*;
use vstd::string::*;
use vstd::utf8::*;

use crate::address::{
    is_local_origin, is_loopback, option_view, parse_url, url_host, url_scheme, UrlParts,
};
use crate::config::AgentConfig;
use crate::protocol::{AgentMessage, ClientMessage, ErrorCode};
use crate::text::{join, lossy_string, lossy_text, same_text};

verus! {

/// Default WebSocket port
pub const DEFAULT_WS_PORT: u16 = 47115;

/// Chunk size for binary transfers. Comfortably below any frame limit, and
/// small enough that a bounded channel throttles a slow client promptly.
pub const CHUNK_BYTES: usize = 262144;

/// Depth of the per-connection response queue. Deliberately small: this is
/// the backpressure that keeps a large transfer from accumulating in memory.
pub const RESPONSE_CHANNEL_CAPACITY: usize = 8;

/// Events kept for a client that lags behind.
pub const EVENT_CHANNEL_CAPACITY: usize = 64;

/// How often the server pings a client, in seconds.
pub const HEARTBEAT_SECS: u64 = 30;

/// How long a connection's tasks may take to end, in seconds.
pub const CLOSE_TIMEOUT_SECS: u64 = 5;

/// How long clients have to take in the notice of a shutdown, in milliseconds.
pub const SHUTDOWN_GRACE_MS: u64 = 500;

// ---------------------------------------------------------------------------
// Tokens
// ---------------------------------------------------------------------------
/// The value of a hexadecimal digit.
pub open spec fn hex_value(digit: u8) -> Option<int> {
    if '0' as u8 <= digit <= '9' as u8 {
        Some(digit - '0' as u8)
    } else if 'a' as u8 <= digit <= 'f' as u8 {
        Some(digit - 'a' as u8 + 10)
    } else if 'A' as u8 <= digit <= 'F' as u8 {
        Some(digit - 'A' as u8 + 10)
    } else {
        None
    }
}

/// The byte that a pair of hexadecimal digits is.
pub open spec fn hex_pair(hi: u8, lo: u8) -> Option<u8> {
    match (hex_value(hi), hex_value(lo)) {
        (Some(h), Some(l)) => Some((h * 16 + l) as u8),
        _ => None,
    }
}

fn hex_digit(digit: u8) -> (r: Option<u8>)
    ensures
        match hex_value(digit) {
            Some(v) => r == Some(v as u8) && 0 <= v < 16,
            None => r is None,
        },
{
    if 48 <= digit && digit <= 57 {
        Some(digit - 48)
    } else if 97 <= digit && digit <= 102 {
        Some(digit - 97 + 10)
    } else if 65 <= digit && digit <= 70 {
        Some(digit - 65 + 10)
    } else {
        None
    }
}

/// Decode a pair of hex digits into a byte.
pub fn from_hex(hi: u8, lo: u8) -> (r: Option<u8>)
    ensures
        r == hex_pair(hi, lo),
{
    match (hex_digit(hi), hex_digit(lo)) {
        (Some(h), Some(l)) => Some(h * 16 + l),
        _ => None,
    }
}

/// Bytes with every percent escape replaced by the byte it stands for. A percent
/// sign that no two hexadecimal digits follow stands for itself.
pub open spec fn percent_bytes(bytes: Seq<u8>) -> Seq<u8>
    decreases bytes.len(),
{
    if bytes.len() == 0 {
        Seq::empty()
    } else if bytes[0] == '%' as u8 && bytes.len() > 2 && hex_pair(bytes[1], bytes[2]) is Some {
        seq![hex_pair(bytes[1], bytes[2]).unwrap()] + percent_bytes(bytes.skip(3))
    } else {
        seq![bytes[0]] + percent_bytes(bytes.skip(1))
    }
}

/// Replace percent escapes by the bytes they stand for.
pub fn percent_decode_bytes(bytes: &[u8]) -> (out: Vec<u8>)
    ensures
        out@ == percent_bytes(bytes@),
{
    let mut out: Vec<u8> = Vec::new();
    let mut i: usize = 0;
    proof {
        assert(bytes@.skip(0) =~= bytes@);
        assert(out@ + percent_bytes(bytes@) =~= percent_bytes(bytes@));
    }
    while i < bytes.len()
        invariant
            i <= bytes@.len(),
            out@ + percent_bytes(bytes@.skip(i as int)) == percent_bytes(bytes@),
        decreases bytes.len() - i,
    {
        let ghost rest = bytes@.skip(i as int);
        let ghost before = out@;
        let decoded = if bytes[i] == 37 && bytes.len() - i > 2 {
            from_hex(bytes[i + 1], bytes[i + 2])
        } else {
            None
        };
        proof {
            assert(rest[0] == bytes@[i as int]);
            if rest.len() > 2 {
                assert(rest[1] == bytes@[i + 1] && rest[2] == bytes@[i + 2]);
                assert(rest.skip(3) =~= bytes@.skip(i + 3));
            }
            assert(rest.skip(1) =~= bytes@.skip(i + 1));
        }
        match decoded {
            Some(b) => {
                out.push(b);
                proof {
                    assert(before.push(b) + percent_bytes(bytes@.skip(i + 3)) =~= before + (seq![b]
                        + percent_bytes(bytes@.skip(i + 3))));
                }
                i += 3;
            },
            None => {
                out.push(bytes[i]);
                proof {
                    assert(before.push(rest[0]) + percent_bytes(bytes@.skip(i + 1)) =~= before + (
                    seq![rest[0]] + percent_bytes(bytes@.skip(i + 1))));
                }
                i += 1;
            },
        }
    }
    proof {
        assert(bytes@.skip(i as int).len() == 0);
        assert(out@ + Seq::<u8>::empty() =~= out@);
    }
    out
}

/// Decode percent-encoded characters in a string (e.g., "%2F" -> "/").
pub fn percent_decode(input: &str) -> (r: String)
    ensures
        r@ == lossy_text(percent_bytes(encode_utf8(input@))),
        valid_utf8(percent_bytes(encode_utf8(input@))) ==> r@ == decode_utf8(
            percent_bytes(encode_utf8(input@)),
        ),
{
    lossy_string(&percent_decode_bytes(input.as_bytes()))
}

/// Where `b` first occurs; the length where it does not.
pub open spec fn first_index(bytes: Seq<u8>, b: u8) -> nat
    decreases bytes.len(),
{
    if bytes.len() == 0 || bytes[0] == b {
        0
    } else {
        1 + first_index(bytes.skip(1), b)
    }
}

/// The key that a token is passed under.
pub open spec fn token_key() -> Seq<u8> {
    seq!['t' as u8, 'o' as u8, 'k' as u8, 'e' as u8, 'n' as u8]
}

/// The value that a `key=value` pair has under the token's key. The first `=`
/// separates the two.
pub open spec fn pair_token(pair: Seq<u8>) -> Option<Seq<u8>> {
    let at = first_index(pair, '=' as u8);
    if at < pair.len() && pair.take(at as int) == token_key() {
        Some(pair.skip(at as int + 1))
    } else {
        None
    }
}

/// The value of the first token among the pairs of a query, which `&` separates.
pub open spec fn query_token(query: Seq<u8>) -> Option<Seq<u8>>
    decreases query.len(),
{
    let end = first_index(query, '&' as u8);
    match pair_token(query.take(end as int)) {
        Some(value) => Some(value),
        None => if end < query.len() {
            query_token(query.skip(end as int + 1))
        } else {
            None
        },
    }
}

proof fn lemma_first_index(bytes: Seq<u8>, b: u8)
    ensures
        first_index(bytes, b) <= bytes.len(),
        first_index(bytes, b) < bytes.len() ==> bytes[first_index(bytes, b) as int] == b,
        forall|j: int| 0 <= j < first_index(bytes, b) ==> bytes[j] != b,
    decreases bytes.len(),
{
    if bytes.len() > 0 && bytes[0] != b {
        lemma_first_index(bytes.skip(1), b);
        assert forall|j: int| 0 <= j < first_index(bytes, b) implies bytes[j] != b by {
            if j > 0 {
                assert(bytes[j] == bytes.skip(1)[j - 1]);
            }
        }
    }
}

proof fn lemma_first_index_unique(bytes: Seq<u8>, b: u8, at: nat)
    requires
        at <= bytes.len(),
        at < bytes.len() ==> bytes[at as int] == b,
        forall|j: int| 0 <= j < at ==> bytes[j] != b,
    ensures
        first_index(bytes, b) == at,
{
    lemma_first_index(bytes, b);
    let found = first_index(bytes, b);
    if found < at {
        assert(bytes[found as int] != b);
    }
    if at < found {
        assert(bytes[at as int] != b);
    }
}

fn find_byte(bytes: &[u8], from: usize, b: u8) -> (at: usize)
    requires
        from <= bytes@.len(),
    ensures
        at == from + first_index(bytes@.skip(from as int), b),
        from <= at <= bytes@.len(),
{
    let mut at: usize = from;
    while at < bytes.len() && bytes[at] != b
        invariant
            from <= at <= bytes@.len(),
            forall|j: int| from <= j < at ==> bytes@[j] != b,
        decreases bytes.len() - at,
    {
        at += 1;
    }
    proof {
        lemma_first_index_unique(bytes@.skip(from as int), b, (at - from) as nat);
    }
    at
}

/// The bytes of the token in a query, percent escapes not yet replaced.
fn token_bytes(query: &[u8]) -> (r: Option<Vec<u8>>)
    ensures
        match query_token(query@) {
            Some(value) => r matches Some(v) && v@ == value,
            None => r is None,
        },
{
    let mut start: usize = 0;
    proof {
        assert(query@.skip(0) =~= query@);
    }
    loop
        invariant
            start <= query@.len(),
            query_token(query@.skip(start as int)) == query_token(query@),
        decreases query@.len() - start,
    {
        let ghost rest = query@.skip(start as int);
        let end = find_byte(query, start, 38);
        let pair = vstd::slice::slice_subrange(query, start, end);
        proof {
            assert(pair@ =~= rest.take(first_index(rest, '&' as u8) as int));
            assert(pair@.skip(0) =~= pair@);
        }
        let at = find_byte(pair, 0, 61);
        if at == 5 && at < pair.len() && pair[0] == 116 && pair[1] == 111 && pair[2] == 107
            && pair[3] == 101 && pair[4] == 110 {
            let value = vstd::slice::slice_subrange(pair, at + 1, pair.len());
            proof {
                assert(pair@.take(5) =~= token_key());
                assert(value@ =~= pair@.skip(at + 1));
            }
            let mut owned: Vec<u8> = Vec::new();
            owned.extend_from_slice(value);
            assert(owned@ =~= value@);
            return Some(owned);
        }
        proof {
            if at < pair@.len() && pair@.take(at as int) == token_key() {
                assert(pair@.take(at as int).len() == 5);
                assert(pair@.take(5)[0] == 't' as u8 && pair@.take(5)[1] == 'o' as u8
                    && pair@.take(5)[2] == 'k' as u8 && pair@.take(5)[3] == 'e' as u8
                    && pair@.take(5)[4] == 'n' as u8);
                assert(pair@[0] == 116 && pair@[1] == 111 && pair@[2] == 107 && pair@[3] == 101
                    && pair@[4] == 110);
            }
            assert(pair_token(pair@) is None);
        }
        if end == query.len() {
            return None;
        }
        proof {
            assert(rest.skip(first_index(rest, '&' as u8) as int + 1) =~= query@.skip(end + 1));
        }
        start = end + 1;
    }
}

/// Extract and percent-decode the `token` value from a URI query string.
pub fn parse_token_from_query(query: &str) -> (r: Option<String>)
    ensures
        match query_token(encode_utf8(query@)) {
            Some(value) => {
                &&& r matches Some(token) && token@ == lossy_text(percent_bytes(value))
                &&& valid_utf8(percent_bytes(value)) ==> r.unwrap()@ == decode_utf8(
                    percent_bytes(value),
                )
            },
            None => r is None,
        },
{
    match token_bytes(query.as_bytes()) {
        Some(value) => Some(lossy_string(&percent_decode_bytes(value.as_slice()))),
        None => None,
    }
}

/// Whether a byte is the hexadecimal digit of this value, in either case.
pub open spec fn is_hex_digit(digit: u8, v: int) -> bool {
    if v < 10 {
        digit == '0' as u8 + v
    } else {
        digit == 'A' as u8 + v - 10 || digit == 'a' as u8 + v - 10
    }
}

/// Whether a text writes these bytes, some of them as percent escapes: any of them
/// may be, in digits of either case, and a percent sign has to be.
pub open spec fn writes(text: Seq<u8>, bytes: Seq<u8>) -> bool
    decreases bytes.len(),
{
    if bytes.len() == 0 {
        text.len() == 0
    } else {
        ||| {
            &&& text.len() > 0
            &&& text[0] == bytes[0]
            &&& text[0] != '%' as u8
            &&& writes(text.skip(1), bytes.skip(1))
        }
        ||| {
            &&& text.len() > 2
            &&& text[0] == '%' as u8
            &&& is_hex_digit(text[1], bytes[0] as int / 16)
            &&& is_hex_digit(text[2], bytes[0] as int % 16)
            &&& writes(text.skip(3), bytes.skip(1))
        }
    }
}

/// Law: whatever a token holds, and whichever of its bytes are escaped, reading it
/// gives it back.
pub proof fn law_escaped_token_survives(text: Seq<u8>, bytes: Seq<u8>)
    requires
        writes(text, bytes),
    ensures
        percent_bytes(text) == bytes,
    decreases bytes.len(),
{
    if bytes.len() == 0 {
        assert(percent_bytes(text) =~= bytes);
    } else {
        assert(seq![bytes[0]] + bytes.skip(1) =~= bytes);
        if text[0] == '%' as u8 {
            law_escaped_token_survives(text.skip(3), bytes.skip(1));
            assert(hex_pair(text[1], text[2]) == Some(bytes[0]));
        } else {
            law_escaped_token_survives(text.skip(1), bytes.skip(1));
        }
    }
}

/// Bytes without percent signs write themselves.
proof fn lemma_plain_bytes(bytes: Seq<u8>)
    requires
        forall|i: int| 0 <= i < bytes.len() ==> bytes[i] != '%' as u8,
    ensures
        writes(bytes, bytes),
    decreases bytes.len(),
{
    if bytes.len() > 0 {
        assert forall|i: int| 0 <= i < bytes.skip(1).len() implies bytes.skip(1)[i]
            != '%' as u8 by {
            assert(bytes.skip(1)[i] == bytes[i + 1]);
        }
        lemma_plain_bytes(bytes.skip(1));
    }
}

/// Law: a token without percent signs is read as it stands.
pub proof fn law_plain_token_survives(bytes: Seq<u8>)
    requires
        forall|i: int| 0 <= i < bytes.len() ==> bytes[i] != '%' as u8,
    ensures
        percent_bytes(bytes) == bytes,
{
    lemma_plain_bytes(bytes);
    law_escaped_token_survives(bytes, bytes);
}

/// Law: the value of a token reaches up to the next `&`, and keeps any `=` in it.
pub proof fn law_token_reaches_to_ampersand(value: Seq<u8>, rest: Seq<u8>)
    requires
        forall|i: int| 0 <= i < value.len() ==> value[i] != '&' as u8,
        rest.len() > 0 ==> rest[0] == '&' as u8,
    ensures
        query_token(token_key() + seq!['=' as u8] + value + rest) == Some(value),
{
    let query = token_key() + seq!['=' as u8] + value + rest;
    let pair = token_key() + seq!['=' as u8] + value;
    assert forall|j: int| 0 <= j < pair.len() implies query[j] != '&' as u8 by {
        if j >= 6 {
            assert(query[j] == value[j - 6]);
        }
    }
    lemma_first_index_unique(query, '&' as u8, pair.len());
    assert(query.take(pair.len() as int) =~= pair);
    lemma_first_index_unique(pair, '=' as u8, 5);
    assert(pair.take(5) =~= token_key());
    assert(pair.skip(6) =~= value);
}

/// Law: pairs under other keys do not matter.
pub proof fn law_other_pairs_are_skipped(pair: Seq<u8>, rest: Seq<u8>)
    requires
        forall|i: int| 0 <= i < pair.len() ==> pair[i] != '&' as u8,
        pair_token(pair) is None,
    ensures
        query_token(pair + seq!['&' as u8] + rest) == query_token(rest),
{
    let query = pair + seq!['&' as u8] + rest;
    lemma_first_index_unique(query, '&' as u8, pair.len());
    assert(query.take(pair.len() as int) =~= pair);
    assert(query.skip(pair.len() as int + 1) =~= rest);
}

/// Whether a query passes a token that stands for exactly this text.
pub open spec fn passes_token(query: Seq<u8>, token: Seq<char>) -> bool {
    query_token(query) matches Some(value) && percent_bytes(value) == encode_utf8(token)
}

/// Whether a token, if there is one, is a text once its escapes are replaced.
pub open spec fn is_legible(value: Option<Seq<u8>>) -> bool {
    value matches Some(value) ==> valid_utf8(percent_bytes(value))
}

/// Law: a token is passed, whatever it holds and whichever of its bytes are escaped,
/// as long as its ampersands are; what follows in the query makes no difference.
pub proof fn law_escaped_token_is_passed(text: Seq<u8>, token: Seq<char>, rest: Seq<u8>)
    requires
        writes(text, encode_utf8(token)),
        forall|i: int| 0 <= i < text.len() ==> text[i] != '&' as u8,
        rest.len() > 0 ==> rest[0] == '&' as u8,
    ensures
        passes_token(token_key() + seq!['=' as u8] + text + rest, token),
{
    law_token_reaches_to_ampersand(text, rest);
    law_escaped_token_survives(text, encode_utf8(token));
}

/// The digit for a value below sixteen.
pub open spec fn hex_char(v: int) -> u8 {
    if v < 10 {
        ('0' as u8 + v) as u8
    } else {
        ('A' as u8 + v - 10) as u8
    }
}

/// Bytes, every one of them escaped.
pub open spec fn escaped(bytes: Seq<u8>) -> Seq<u8>
    decreases bytes.len(),
{
    if bytes.len() == 0 {
        Seq::empty()
    } else {
        seq!['%' as u8, hex_char(bytes[0] as int / 16), hex_char(bytes[0] as int % 16)] + escaped(
            bytes.skip(1),
        )
    }
}

/// Law: every token can be passed: with each of its bytes escaped it is written, and
/// holds no ampersand.
pub proof fn law_every_token_can_be_escaped(bytes: Seq<u8>)
    ensures
        writes(escaped(bytes), bytes),
        forall|i: int| 0 <= i < escaped(bytes).len() ==> escaped(bytes)[i] != '&' as u8,
    decreases bytes.len(),
{
    if bytes.len() > 0 {
        law_every_token_can_be_escaped(bytes.skip(1));
        let rest = escaped(bytes.skip(1));
        let all = escaped(bytes);
        assert(all.skip(3) =~= rest);
        assert forall|i: int| 0 <= i < all.len() implies all[i] != '&' as u8 by {
            if i >= 3 {
                assert(all[i] == rest[i - 3]);
            }
        }
    }
}

/// Law: a token that holds neither a percent sign nor an ampersand can be passed
/// as it stands.
pub proof fn law_plain_token_is_passed(token: Seq<char>, rest: Seq<u8>)
    requires
        forall|i: int|
            0 <= i < encode_utf8(token).len() ==> #[trigger] encode_utf8(token)[i] != '%' as u8
                && encode_utf8(token)[i] != '&' as u8,
        rest.len() > 0 ==> rest[0] == '&' as u8,
    ensures
        passes_token(token_key() + seq!['=' as u8] + encode_utf8(token) + rest, token),
{
    law_token_reaches_to_ampersand(encode_utf8(token), rest);
    law_plain_token_survives(encode_utf8(token));
}

// ---------------------------------------------------------------------------
// Who may connect
// ---------------------------------------------------------------------------
/// Origin acceptance policy for the WebSocket handshake.
#[derive(Debug)]
pub enum OriginPolicy {
    /// Accept any origin (and missing Origin headers). Dev-mode only.
    AllowAll,
    /// Accept localhost (when `allow_localhost`) plus exact matches in `extra`.
    /// Production builds always use this variant.
    Restricted {
        /// Accept http(s)://localhost(:any-port), 127.0.0.1, and [::1].
        allow_localhost: bool,
        /// Additional exact-match origin strings (e.g., "https://app.example.com").
        extra: Vec<String>,
    },
}

/// Configuration for the WebSocket server
#[derive(Debug)]
pub struct WsServerConfig {
    pub port: u16,
    /// Origin acceptance policy. `AllowAll` is dev-only.
    pub origin_policy: OriginPolicy,
    /// Auth token for WebSocket connections. If there is one, clients must pass
    /// `?token=<value>` in the connection URL.
    pub auth_token: Option<String>,
}

impl Default for WsServerConfig {
    fn default() -> (r: Self)
        ensures
            r.port == DEFAULT_WS_PORT,
            r.origin_policy == OriginPolicy::AllowAll,
            r.auth_token is None,
    {
        WsServerConfig {
            port: DEFAULT_WS_PORT,
            origin_policy: OriginPolicy::AllowAll,
            auth_token: None,
        }
    }
}

impl WsServerConfig {
    /// The server that an installation is configured to run. Development builds
    /// accept any origin.
    pub fn from_config(config: AgentConfig, dev_mode: bool) -> (r: WsServerConfig)
        ensures
            r.port == config.server.port,
            r.auth_token == config.server.auth_token,
            r.origin_policy == (if dev_mode {
                OriginPolicy::AllowAll
            } else {
                OriginPolicy::Restricted {
                    allow_localhost: config.server.allow_localhost,
                    extra: config.server.extra_origins,
                }
            }),
    {
        let server = config.server;
        WsServerConfig {
            port: server.port,
            origin_policy: if dev_mode {
                OriginPolicy::AllowAll
            } else {
                OriginPolicy::Restricted {
                    allow_localhost: server.allow_localhost,
                    extra: server.extra_origins,
                }
            },
            auth_token: server.auth_token,
        }
    }
}

/// Why a handshake is refused: an HTTP status, and what its body says.
#[derive(Debug)]
pub struct Rejection {
    pub status: u16,
    pub body: String,
}

impl Rejection {
    pub open spec fn says(self, status: u16, words: Seq<char>) -> bool {
        self.status == status && self.body@ == words
    }
}

/// Build a rejection of the WebSocket handshake.
pub fn reject_response(status: u16, body: &str) -> (r: Rejection)
    ensures
        r.says(status, body@),
{
    Rejection { status, body: body.to_owned() }
}

/// Whether one of `origins` is exactly `origin`.
pub open spec fn lists_origin(origins: Seq<String>, origin: Seq<char>) -> bool {
    exists|i: int| 0 <= i < origins.len() && (#[trigger] origins[i])@ == origin
}

/// Whether a page of that scheme and host is served by this machine.
pub open spec fn served_locally(scheme: Seq<char>, host: Option<Seq<char>>) -> bool {
    &&& scheme == "http"@ || scheme == "https"@
    &&& host matches Some(h) && (is_loopback(h) || h == "::1"@)
}

/// What a policy has against an origin that is a URL of this scheme and host, or
/// is none.
pub open spec fn origin_objection(
    policy: OriginPolicy,
    origin: Option<Seq<char>>,
    scheme: Option<Seq<char>>,
    host: Option<Seq<char>>,
) -> Option<Seq<char>> {
    match policy {
        OriginPolicy::AllowAll => None,
        OriginPolicy::Restricted { allow_localhost, extra } => match (origin, scheme) {
            (None, _) => Some("Forbidden: Origin header required"@),
            (Some(_), None) => Some("Forbidden: Malformed Origin"@),
            (Some(origin), Some(scheme)) => if (allow_localhost && served_locally(scheme, host))
                || lists_origin(extra@, origin) {
                None
            } else {
                Some("Forbidden: Origin not allowed"@)
            },
        },
    }
}

/// Whether the token that a query passes is the one expected, if one is.
pub open spec fn token_accepted(expected: Option<Seq<char>>, provided: Option<Seq<char>>) -> bool {
    expected is Some ==> provided == expected
}

fn is_served_locally(scheme: &str, host: &Option<String>) -> (r: bool)
    ensures
        r == served_locally(scheme@, option_view(*host)),
{
    match host {
        Some(host) => {
            let host = host.as_str();
            (same_text(scheme, "http") || same_text(scheme, "https")) && (same_text(
                host,
                "localhost",
            ) || same_text(host, "127.0.0.1") || same_text(host, "::1") || same_text(host, "[::1]"))
        },
        None => false,
    }
}

fn has_origin(origins: &Vec<String>, origin: &str) -> (r: bool)
    ensures
        r == lists_origin(origins@, origin@),
{
    let mut i: usize = 0;
    while i < origins.len()
        invariant
            i <= origins@.len(),
            forall|j: int| 0 <= j < i ==> (#[trigger] origins@[j])@ != origin@,
        decreases origins.len() - i,
    {
        if same_text(origins[i].as_str(), origin) {
            return true;
        }
        i += 1;
    }
    false
}

/// What an optional string slice holds.
pub open spec fn str_view(s: Option<&str>) -> Option<Seq<char>> {
    match s {
        Some(s) => Some(s@),
        None => None,
    }
}

/// Judge an origin, given the URL that it is, if it is one.
pub fn judge_origin(policy: &OriginPolicy, origin: Option<&str>, url: &Option<UrlParts>) -> (r:
    Result<(), Rejection>)
    ensures
        match origin_objection(
            *policy,
            str_view(origin),
            match *url {
                Some(url) => Some(url.scheme@),
                None => None,
            },
            match *url {
                Some(url) => option_view(url.host),
                None => None,
            },
        ) {
            None => r == Ok::<(), Rejection>(()),
            Some(words) => r matches Err(rejection) && rejection.says(403, words),
        },
{
    match policy {
        OriginPolicy::AllowAll => Ok(()),
        OriginPolicy::Restricted { allow_localhost, extra } => match (origin, url) {
            (None, _) => Err(reject_response(403, "Forbidden: Origin header required")),
            (Some(_), None) => Err(reject_response(403, "Forbidden: Malformed Origin")),
            (Some(origin), Some(url)) => if (*allow_localhost && is_served_locally(
                url.scheme.as_str(),
                &url.host,
            )) || has_origin(extra, origin) {
                Ok(())
            } else {
                Err(reject_response(403, "Forbidden: Origin not allowed"))
            },
        },
    }
}

/// Judge the token that a connection passes.
pub fn judge_token(expected: &Option<String>, provided: &Option<String>) -> (r: Result<
    (),
    Rejection,
>)
    ensures
        if token_accepted(option_view(*expected), option_view(*provided)) {
            r == Ok::<(), Rejection>(())
        } else {
            r matches Err(rejection) && rejection.says(
                401,
                "Unauthorized: Invalid or missing token"@,
            )
        },
{
    match (expected, provided) {
        (None, _) => Ok(()),
        (Some(expected), Some(provided)) if same_text(provided.as_str(), expected.as_str()) => Ok(
            (),
        ),
        _ => Err(reject_response(401, "Unauthorized: Invalid or missing token")),
    }
}

/// The token that a query passes, if it passes one.
pub open spec fn provided_token(query: Option<Seq<char>>) -> Option<Seq<char>> {
    match query {
        Some(query) => match query_token(encode_utf8(query)) {
            Some(value) => Some(lossy_text(percent_bytes(value))),
            None => None,
        },
        None => None,
    }
}

/// Validate the WebSocket handshake: first the origin, then the auth token.
pub fn validate_handshake(origin: Option<&str>, query: Option<&str>, config: &WsServerConfig) -> (r:
    Result<(), Rejection>)
    ensures
        match origin_objection(
            config.origin_policy,
            str_view(origin),
            match origin {
                Some(origin) => url_scheme(origin@),
                None => None,
            },
            match origin {
                Some(origin) => url_host(origin@),
                None => None,
            },
        ) {
            Some(words) => r matches Err(rejection) && rejection.says(403, words),
            None => if token_accepted(
                option_view(config.auth_token),
                provided_token(str_view(query)),
            ) {
                r == Ok::<(), Rejection>(())
            } else {
                r matches Err(rejection) && rejection.says(
                    401,
                    "Unauthorized: Invalid or missing token"@,
                )
            },
        },
        // Whoever passes the configured token, escaped or not, is not refused for it.
        config.auth_token is Some && query is Some && passes_token(
            encode_utf8(query.unwrap()@),
            config.auth_token.unwrap()@,
        ) ==> !(r matches Err(rejection) && rejection.status == 401),
        // Whoever passes another text, or none, is not let in.
        config.auth_token is Some && query is Some && !passes_token(
            encode_utf8(query.unwrap()@),
            config.auth_token.unwrap()@,
        ) && is_legible(query_token(encode_utf8(query.unwrap()@))) ==> r is Err,
        // Pages that this machine serves, on whatever port, are let in by default.
        origin is Some && (config.origin_policy matches OriginPolicy::Restricted {
            allow_localhost,
            ..
        } && allow_localhost) && config.auth_token is None && (exists|
            scheme: Seq<char>,
            host: Seq<char>,
        | #[trigger]
            is_local_origin(origin.unwrap()@, scheme, host)) ==> r == Ok::<(), Rejection>(()),
        // So is every origin that is listed, wherever in the list it stands.
        (config.origin_policy matches OriginPolicy::Restricted { extra, .. } && config.auth_token
            is None && origin is Some && url_scheme(origin.unwrap()@) is Some && (exists|i: int|
            0 <= i < extra@.len() && (#[trigger] extra@[i])@ == origin.unwrap()@)) ==> r == Ok::<
            (),
            Rejection,
        >(()),
{
    let url = match origin {
        Some(origin) => parse_url(origin),
        None => None,
    };
    match judge_origin(&config.origin_policy, origin, &url) {
        Err(rejection) => Err(rejection),
        Ok(()) => {
            let provided = match query {
                Some(query) => parse_token_from_query(query),
                None => None,
            };
            proof {
                if query is Some && config.auth_token is Some {
                    let expected = config.auth_token.unwrap()@;
                    encode_utf8_valid_utf8(expected);
                    encode_utf8_decode_utf8(expected);
                    if let Some(value) = query_token(encode_utf8(query.unwrap()@)) {
                        if valid_utf8(percent_bytes(value)) {
                            decode_utf8_encode_utf8(percent_bytes(value));
                        }
                    }
                }
            }
            judge_token(&config.auth_token, &provided)
        },
    }
}

/// Law: the default policy lets in exactly the pages that this machine serves.
pub proof fn law_default_policy_is_local_only(
    policy: OriginPolicy,
    origin: Option<Seq<char>>,
    scheme: Option<Seq<char>>,
    host: Option<Seq<char>>,
)
    requires
        policy matches OriginPolicy::Restricted { allow_localhost, extra } && allow_localhost
            && extra@.len() == 0,
    ensures
        origin_objection(policy, origin, scheme, host) is None <==> origin is Some && scheme is Some
            && served_locally(scheme.unwrap(), host),
{
}

/// Law: listing more origins shuts nobody out.
pub proof fn law_more_origins_admit_more(
    allow_localhost: bool,
    extra: Vec<String>,
    more: Vec<String>,
    origin: Option<Seq<char>>,
    scheme: Option<Seq<char>>,
    host: Option<Seq<char>>,
)
    requires
        forall|o: Seq<char>| #[trigger] lists_origin(extra@, o) ==> lists_origin(more@, o),
        origin_objection(
            OriginPolicy::Restricted { allow_localhost, extra },
            origin,
            scheme,
            host,
        ) is None,
    ensures
        origin_objection(
            OriginPolicy::Restricted { allow_localhost, extra: more },
            origin,
            scheme,
            host,
        ) is None,
{
}

/// Law: a policy that does not allow localhost lets in exactly the origins it
/// lists, as far as they are URLs.
pub proof fn law_listed_origins_only(
    extra: Vec<String>,
    origin: Seq<char>,
    scheme: Seq<char>,
    host: Option<Seq<char>>,
)
    ensures
        origin_objection(
            OriginPolicy::Restricted { allow_localhost: false, extra },
            Some(origin),
            Some(scheme),
            host,
        ) is None <==> lists_origin(extra@, origin),
{
}

// ---------------------------------------------------------------------------
// Binary transfers
// ---------------------------------------------------------------------------
/// How many bytes the frame holds that begins at `sent`.
pub open spec fn frame_len(payload: Seq<u8>, sent: int) -> int {
    if payload.len() - sent < CHUNK_BYTES {
        payload.len() - sent
    } else {
        CHUNK_BYTES as int
    }
}

/// The frames of a payload from `sent` on.
pub open spec fn frames(payload: Seq<u8>, sent: int) -> Seq<Seq<u8>>
    decreases payload.len() - sent,
{
    if sent < 0 || sent >= payload.len() {
        Seq::empty()
    } else {
        seq![payload.subrange(sent, sent + frame_len(payload, sent))] + frames(
            payload,
            sent + frame_len(payload, sent),
        )
    }
}

/// The next frame of a payload of which this much is sent; none once all is.
///
/// Frames are cut one at a time, so a client that reads slowly slows the transfer
/// down rather than having the agent buffer all of it.
pub fn send_binary(payload: &[u8], sent: usize) -> (r: Option<Vec<u8>>)
    requires
        sent <= payload@.len(),
    ensures
        match r {
            Some(frame) => {
                &&& sent < payload@.len()
                &&& frame@ == payload@.subrange(
                    sent as int,
                    sent + frame_len(payload@, sent as int),
                )
                &&& frames(payload@, sent as int) == seq![frame@] + frames(
                    payload@,
                    sent + frame@.len(),
                )
            },
            None => sent == payload@.len() && frames(payload@, sent as int).len() == 0,
        },
{
    if sent == payload.len() {
        return None;
    }
    let len: usize = if payload.len() - sent < CHUNK_BYTES {
        payload.len() - sent
    } else {
        CHUNK_BYTES
    };
    let mut frame: Vec<u8> = Vec::new();
    frame.extend_from_slice(vstd::slice::slice_subrange(payload, sent, sent + len));
    proof {
        assert(frame@ =~= payload@.subrange(sent as int, sent + frame_len(payload@, sent as int)));
    }
    Some(frame)
}

/// The bytes of frames, one after the other.
pub open spec fn concat(parts: Seq<Seq<u8>>) -> Seq<u8>
    decreases parts.len(),
{
    if parts.len() == 0 {
        Seq::empty()
    } else {
        parts[0] + concat(parts.skip(1))
    }
}

/// Law: the frames of a payload hold its bytes, all of them and in order; none is
/// empty or larger than a chunk, and all but the last are full.
pub proof fn law_frames_hold_the_payload(payload: Seq<u8>, sent: int)
    requires
        0 <= sent <= payload.len(),
    ensures
        concat(frames(payload, sent)) == payload.skip(sent),
        forall|i: int|
            0 <= i < frames(payload, sent).len() ==> 0 < (#[trigger] frames(payload, sent)[i]).len()
                <= CHUNK_BYTES,
        forall|i: int|
            0 <= i < frames(payload, sent).len() - 1 ==> (#[trigger] frames(payload, sent)[i]).len()
                == CHUNK_BYTES,
    decreases payload.len() - sent,
{
    let all = frames(payload, sent);
    if sent < payload.len() {
        let next = sent + frame_len(payload, sent);
        law_frames_hold_the_payload(payload, next);
        let rest = frames(payload, next);
        assert(all.skip(1) =~= rest);
        assert(payload.subrange(sent, next) + payload.skip(next) =~= payload.skip(sent));
        assert forall|i: int| 0 <= i < all.len() implies 0 < (#[trigger] all[i]).len()
            <= CHUNK_BYTES by {
            if i > 0 {
                assert(all[i] == rest[i - 1]);
            }
        }
        assert forall|i: int| 0 <= i < all.len() - 1 implies (#[trigger] all[i]).len()
            == CHUNK_BYTES by {
            if i > 0 {
                assert(all[i] == rest[i - 1]);
            } else {
                assert(rest.len() > 0);
            }
        }
    } else {
        assert(payload.skip(sent) =~= Seq::<u8>::empty());
    }
}

// ---------------------------------------------------------------------------
// One connection
// ---------------------------------------------------------------------------
/// Something to write to one client's socket.
#[derive(Debug)]
pub enum OutgoingMessage {
    /// A protocol message, sent as a text frame.
    Json(AgentMessage),
    /// One chunk of a binary transfer that was announced before.
    Binary(Vec<u8>),
}

/// What came in from a client.
#[derive(Debug)]
pub enum Incoming {
    /// A text frame: the message in it, or why there is none.
    Text(Result<ClientMessage, String>),
    Ping(Vec<u8>),
    Close,
    /// A frame of any other type.
    Other,
    /// The connection broke.
    Failed,
}

/// What to do about what came in from a client.
#[derive(Debug)]
pub enum ConnectionStep {
    /// Hand the message to the command handler, and read on if it took it.
    Dispatch(ClientMessage),
    /// Answer, and read on.
    Answer(AgentMessage),
    /// Answer with a pong of this payload, and read on.
    Pong(Vec<u8>),
    /// Read on.
    Ignore,
    /// Close the connection.
    Close,
}

/// What to do about what came in from a client. A text frame that holds no
/// message has no id to echo.
pub fn incoming_step(incoming: Incoming) -> (r: ConnectionStep)
    ensures
        match incoming {
            Incoming::Text(Ok(message)) => r == ConnectionStep::Dispatch(message),
            Incoming::Text(Err(e)) => r matches ConnectionStep::Answer(answer) && answer.is_error(
                Seq::empty(),
                ErrorCode::InvalidRequest,
                "Invalid message format: "@ + e@,
            ),
            Incoming::Ping(payload) => r == ConnectionStep::Pong(payload),
            Incoming::Other => r == ConnectionStep::Ignore,
            Incoming::Close | Incoming::Failed => r == ConnectionStep::Close,
        },
{
    match incoming {
        Incoming::Text(Ok(message)) => ConnectionStep::Dispatch(message),
        Incoming::Text(Err(e)) => ConnectionStep::Answer(
            AgentMessage::Error {
                id: String::new(),
                code: ErrorCode::InvalidRequest,
                message: join("Invalid message format: ", e.as_str()),
            },
        ),
        Incoming::Ping(payload) => ConnectionStep::Pong(payload),
        Incoming::Other => ConnectionStep::Ignore,
        Incoming::Close | Incoming::Failed => ConnectionStep::Close,
    }
}

/// What came in from the events that go to all clients.
#[derive(Debug)]
pub enum EventOutcome<M> {
    Message(M),
    /// The client missed some.
    Lagged,
    Closed,
}

/// What to do about an event.
#[derive(Debug)]
pub enum EventStep<M> {
    Send(M),
    Skip,
    Stop,
}

/// What to do about an event: a client that lags behind misses some, and stays.
pub fn event_step<M>(event: EventOutcome<M>) -> (r: EventStep<M>)
    ensures
        r == (match event {
            EventOutcome::Message(message) => EventStep::Send(message),
            EventOutcome::Lagged => EventStep::Skip,
            EventOutcome::Closed => EventStep::Stop,
        }),
{
    match event {
        EventOutcome::Message(message) => EventStep::Send(message),
        EventOutcome::Lagged => EventStep::Skip,
        EventOutcome::Closed => EventStep::Stop,
    }
}

// ---------------------------------------------------------------------------
// What a handshake comes to, and what a query says
// ---------------------------------------------------------------------------
/// Law: every origin of the list is let in, whichever place it has there, as long as
/// it is a URL; and where no token is configured, whatever token is passed.
pub proof fn law_each_listed_origin_is_let_in(
    allow_localhost: bool,
    extra: Vec<String>,
    i: int,
    scheme: Seq<char>,
    host: Option<Seq<char>>,
    provided: Option<Seq<char>>,
)
    requires
        0 <= i < extra@.len(),
    ensures
        origin_objection(
            OriginPolicy::Restricted { allow_localhost, extra },
            Some(extra@[i]@),
            Some(scheme),
            host,
        ) is None,
        token_accepted(None, provided),
{
}

/// Law: an origin that is a URL is let in exactly where it is the same text as one of
/// the list, or where local pages are allowed and it is one, by its scheme and host.
pub proof fn law_who_is_let_in(
    allow_localhost: bool,
    extra: Vec<String>,
    origin: Seq<char>,
    scheme: Seq<char>,
    host: Option<Seq<char>>,
)
    ensures
        ({
            let objection = origin_objection(
                OriginPolicy::Restricted { allow_localhost, extra },
                Some(origin),
                Some(scheme),
                host,
            );
            &&& objection is None <==> {
                ||| exists|i: int| 0 <= i < extra@.len() && (#[trigger] extra@[i])@ == origin
                ||| {
                    &&& allow_localhost
                    &&& scheme == "http"@ || scheme == "https"@
                    &&& host == Some("localhost"@) || host == Some("127.0.0.1"@) || host == Some(
                        "[::1]"@,
                    ) || host == Some("::1"@)
                }
            }
            &&& objection is Some ==> objection == Some("Forbidden: Origin not allowed"@)
        }),
{
    let policy = OriginPolicy::Restricted { allow_localhost, extra };
    if origin_objection(policy, Some(origin), Some(scheme), host) is None && !(allow_localhost
        && served_locally(scheme, host)) {
        let i = choose|i: int| 0 <= i < extra@.len() && (#[trigger] extra@[i])@ == origin;
        assert(extra@[i]@ == origin);
    }
}

/// Law: a restricted policy lets in nobody without an origin that is a URL; one that
/// allows all lets in everybody.
pub proof fn law_origins_are_required(
    allow_localhost: bool,
    extra: Vec<String>,
    origin: Option<Seq<char>>,
    scheme: Option<Seq<char>>,
    host: Option<Seq<char>>,
)
    ensures
        origin_objection(OriginPolicy::AllowAll, origin, scheme, host) is None,
        origin is None ==> origin_objection(
            OriginPolicy::Restricted { allow_localhost, extra },
            origin,
            scheme,
            host,
        ) == Some("Forbidden: Origin header required"@),
        origin is Some && scheme is None ==> origin_objection(
            OriginPolicy::Restricted { allow_localhost, extra },
            origin,
            scheme,
            host,
        ) == Some("Forbidden: Malformed Origin"@),
{
}

/// Law: where a token is configured, exactly those are let in who pass that text.
pub proof fn law_tokens_have_to_match(expected: Seq<char>, provided: Seq<char>)
    ensures
        token_accepted(Some(expected), Some(provided)) <==> provided == expected,
        !token_accepted(Some(expected), None),
        token_accepted(None, Some(provided)),
        token_accepted(None, None),
{
}

/// Law: an optional text is the text that it is.
pub proof fn law_optional_texts(s: Option<&str>)
    ensures
        s matches Some(text) ==> str_view(s) == Some(text@),
        s is None ==> str_view(s) is None,
{
}

/// Law: a rejection has the status and the words it was made with.
pub proof fn law_rejections_say_why(rejection: Rejection, status: u16, words: Seq<char>)
    ensures
        rejection.says(status, words) <==> rejection.status == status && rejection.body@ == words,
{
}

/// Law: a pair passes a token exactly where `token=` stands before it.
pub proof fn law_tokens_stand_under_their_key(pair: Seq<u8>, value: Seq<u8>)
    ensures
        pair_token(pair) == Some(value) <==> pair == seq![
            't' as u8,
            'o' as u8,
            'k' as u8,
            'e' as u8,
            'n' as u8,
            '=' as u8,
        ] + value,
{
    let key = seq!['t' as u8, 'o' as u8, 'k' as u8, 'e' as u8, 'n' as u8, '=' as u8];
    if pair == key + value {
        lemma_first_index_unique(pair, '=' as u8, 5);
        assert(pair.take(5) =~= token_key());
        assert(pair.skip(6) =~= value);
    }
    if pair_token(pair) == Some(value) {
        let at = first_index(pair, '=' as u8);
        lemma_first_index(pair, '=' as u8);
        assert(pair.take(at as int).len() == token_key().len());
        assert forall|k: int| 0 <= k < 5 implies pair[k] == token_key()[k] by {
            assert(pair.take(5)[k] == pair[k]);
        }
        assert forall|k: int| 0 <= k < pair.len() implies pair[k] == (key + value)[k] by {
            if k >= 6 {
                assert(pair.skip(6)[k - 6] == pair[k]);
            }
        }
        assert(pair =~= key + value);
    }
}

/// Law: a query of one pair passes the token of that pair.
pub proof fn law_last_pair_counts(pair: Seq<u8>)
    requires
        forall|i: int| 0 <= i < pair.len() ==> pair[i] != '&' as u8,
    ensures
        query_token(pair) == pair_token(pair),
{
    lemma_first_index_unique(pair, '&' as u8, pair.len());
    assert(pair.take(pair.len() as int) =~= pair);
}

/// Law: a query passes what stands under the token's key in it, its escapes replaced;
/// without a query nothing is passed.
pub proof fn law_queries_pass_their_token(query: Seq<char>)
    ensures
        provided_token(None) is None,
        query_token(encode_utf8(query)) is None ==> provided_token(Some(query)) is None,
        query_token(encode_utf8(query)) matches Some(value) ==> provided_token(Some(query)) == Some(
            lossy_text(percent_bytes(value)),
        ),
{
}

/// Law: what is not an escape is read as it stands, whatever comes after it.
pub proof fn law_other_bytes_stay(bytes: Seq<u8>)
    requires
        bytes.len() > 0,
        !(bytes[0] == '%' as u8 && bytes.len() > 2 && (exists|hi: int, lo: int|
            0 <= hi < 16 && 0 <= lo < 16 && #[trigger] is_hex_digit(bytes[1], hi)
                && #[trigger] is_hex_digit(bytes[2], lo))),
    ensures
        percent_bytes(bytes) == seq![bytes[0]] + percent_bytes(bytes.skip(1)),
{
    if bytes.len() > 2 && hex_pair(bytes[1], bytes[2]) is Some {
        let hi = hex_value(bytes[1]).unwrap();
        let lo = hex_value(bytes[2]).unwrap();
        assert(is_hex_digit(bytes[1], hi) && is_hex_digit(bytes[2], lo));
    }
}

/// Law: a query passes a text exactly where what it has under the token's key is that text
/// once its escapes are replaced; what it has there is legible where it is some text.
pub proof fn law_passing_a_token(query: Seq<u8>, value: Seq<u8>, token: Seq<char>)
    requires
        query_token(query) == Some(value),
    ensures
        passes_token(query, token) <==> percent_bytes(value) == encode_utf8(token),
        is_legible(Some(value)) <==> valid_utf8(percent_bytes(value)),
        is_legible(None),
{
}

} // verus!
