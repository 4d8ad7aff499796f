//! Per-installation configuration, read from an optional `config.toml`.
//!
//! Without a file the built-in defaults hold (port 47115, localhost-only origins).
//! Environment variables override what the file says.

use vstd::prelude::*;
use vstd::string::*;
use vstd::utf8::*;

use crate::address::{parse_url, url_path, url_scheme, UrlParts};
use crate::text::{
    decimal, digit_char, has_char, join, joined, law_split_is_reversible,
    law_texts_are_those_of_the_strings, lemma_utf8_concat, numeral, same_text, split, split_text,
    texts,
};

verus! {

pub const DEFAULT_PORT: u16 = 47115;

#[derive(Debug, PartialEq, Eq)]
pub struct AgentConfig {
    pub server: ServerConfig,
}

#[derive(Debug, PartialEq, Eq)]
pub struct ServerConfig {
    pub port: u16,
    /// Accept connections from pages that this machine serves.
    pub allow_localhost: bool,
    /// Additional exact-match origins, each with its scheme.
    pub extra_origins: Vec<String>,
    /// A token that every connection must pass, if there is one.
    pub auth_token: Option<String>,
}

impl ServerConfig {
    pub open spec fn is_default(self) -> bool {
        &&& self.port == DEFAULT_PORT
        &&& self.allow_localhost
        &&& self.extra_origins@.len() == 0
        &&& self.auth_token is None
    }
}

impl Default for ServerConfig {
    fn default() -> (r: Self)
        ensures
            r.is_default(),
    {
        ServerConfig {
            port: DEFAULT_PORT,
            allow_localhost: true,
            extra_origins: Vec::new(),
            auth_token: None,
        }
    }
}

impl Default for AgentConfig {
    fn default() -> (r: Self)
        ensures
            r.server.is_default(),
    {
        AgentConfig { server: ServerConfig::default() }
    }
}

/// The settings that a file makes; those it does not mention keep their defaults.
#[derive(Debug)]
pub struct ServerSection {
    pub port: Option<u16>,
    pub allow_localhost: Option<bool>,
    pub extra_origins: Option<Vec<String>>,
    pub auth_token: Option<String>,
}

impl ServerSection {
    /// The configuration of a file with this section, if it has one.
    pub fn configure(section: Option<ServerSection>) -> (config: AgentConfig)
        ensures
            match section {
                None => config.server.is_default(),
                Some(section) => {
                    &&& config.server.port == (match section.port {
                        Some(port) => port,
                        None => DEFAULT_PORT,
                    })
                    &&& config.server.allow_localhost == (section.allow_localhost != Some(false))
                    &&& match section.extra_origins {
                        Some(origins) => config.server.extra_origins == origins,
                        None => config.server.extra_origins@.len() == 0,
                    }
                    &&& config.server.auth_token == section.auth_token
                },
            },
    {
        let mut config = AgentConfig::default();
        if let Some(section) = section {
            if let Some(port) = section.port {
                config.server.port = port;
            }
            if let Some(allow_localhost) = section.allow_localhost {
                config.server.allow_localhost = allow_localhost;
            }
            if let Some(origins) = section.extra_origins {
                config.server.extra_origins = origins;
            }
            config.server.auth_token = section.auth_token;
        }
        config
    }
}

#[derive(Debug)]
pub enum ConfigError {
    Io(String),
    Parse(String),
    Invalid(String),
}

impl ConfigError {
    /// The words that describe this error.
    pub open spec fn text(self) -> Seq<char> {
        match self {
            ConfigError::Io(e) => "config I/O error: "@ + e@,
            ConfigError::Parse(e) => "config parse error: "@ + e@,
            ConfigError::Invalid(e) => "config invalid: "@ + e@,
        }
    }

    /// Describe the error.
    pub fn message(&self) -> (s: String)
        ensures
            s@ == self.text(),
    {
        match self {
            ConfigError::Io(e) => join("config I/O error: ", e.as_str()),
            ConfigError::Parse(e) => join("config parse error: ", e.as_str()),
            ConfigError::Invalid(e) => join("config invalid: ", e.as_str()),
        }
    }
}

// ---------------------------------------------------------------------------
// The file
// ---------------------------------------------------------------------------
/// What reading the file gave.
#[derive(Debug)]
pub enum ConfigFile {
    /// There is none.
    Missing,
    /// It could not be read.
    Unreadable(String),
    /// It holds no configuration.
    Malformed(String),
    Parsed(AgentConfig),
}

/// Whether a URL with this scheme and path is a full origin: one of the web, with
/// no path to speak of, and with neither query nor fragment.
pub open spec fn is_full_origin(
    text: Seq<char>,
    scheme: Option<Seq<char>>,
    path: Seq<char>,
) -> bool {
    &&& scheme == Some("http"@) || scheme == Some("https"@)
    &&& path == ""@ || path == "/"@
    &&& !text.contains('?')
    &&& !text.contains('#')
}

/// Whether a text is a full origin.
pub open spec fn is_origin(text: Seq<char>) -> bool {
    is_full_origin(text, url_scheme(text), url_path(text))
}

/// The first of `origins` that is no full origin.
pub open spec fn first_bad_origin(origins: Seq<String>, i: int) -> bool {
    &&& 0 <= i < origins.len()
    &&& !is_origin(origins[i]@)
    &&& forall|j: int| 0 <= j < i ==> is_origin((#[trigger] origins[j])@)
}

/// What a configuration is told of an origin that is none.
pub open spec fn bad_origin_text(origin: Seq<char>) -> Seq<char> {
    "extra_origins entry is not an http(s) origin: "@ + origin
}

/// Whether an origin may be listed, given the URL that it is, if it is one.
pub fn is_web_origin(text: &str, url: &Option<UrlParts>) -> (r: bool)
    ensures
        r == (*url matches Some(url) && is_full_origin(text@, Some(url.scheme@), url.path@)),
{
    match url {
        Some(url) => {
            let scheme = url.scheme.as_str();
            let path = url.path.as_str();
            (same_text(scheme, "http") || same_text(scheme, "https")) && (same_text(path, "")
                || same_text(path, "/")) && !has_char(text, '?') && !has_char(text, '#')
        },
        None => false,
    }
}

/// What loading gives for each file: the defaults without one, its contents
/// where every origin it lists is one, and otherwise what is wrong with it.
pub open spec fn loads(file: ConfigFile, r: Result<AgentConfig, ConfigError>) -> bool {
    match file {
        ConfigFile::Missing => r matches Ok(config) && config.server.is_default(),
        ConfigFile::Unreadable(e) => r == Err::<AgentConfig, ConfigError>(ConfigError::Io(e)),
        ConfigFile::Malformed(e) => r == Err::<AgentConfig, ConfigError>(ConfigError::Parse(e)),
        ConfigFile::Parsed(config) => match r {
            Ok(same) => same == config && forall|i: int|
                0 <= i < config.server.extra_origins@.len() ==> is_origin(
                    (#[trigger] config.server.extra_origins@[i])@,
                ),
            Err(e) => e matches ConfigError::Invalid(m) && exists|i: int|
                #[trigger] first_bad_origin(config.server.extra_origins@, i) && m@
                    == bad_origin_text(config.server.extra_origins@[i]@),
        },
    }
}

/// The configuration to run with. A missing file is no error; one that is there
/// but cannot be used is.
pub fn load_or_default(file: ConfigFile) -> (r: Result<AgentConfig, ConfigError>)
    ensures
        loads(file, r),
{
    match file {
        ConfigFile::Missing => Ok(AgentConfig::default()),
        ConfigFile::Unreadable(e) => Err(ConfigError::Io(e)),
        ConfigFile::Malformed(e) => Err(ConfigError::Parse(e)),
        ConfigFile::Parsed(config) => {
            let mut i: usize = 0;
            while i < config.server.extra_origins.len()
                invariant
                    i <= config.server.extra_origins@.len(),
                    file == ConfigFile::Parsed(config),
                    forall|j: int|
                        0 <= j < i ==> is_origin((#[trigger] config.server.extra_origins@[j])@),
                decreases config.server.extra_origins.len() - i,
            {
                let origin = &config.server.extra_origins[i];
                let url = parse_url(origin.as_str());
                if !is_web_origin(origin.as_str(), &url) {
                    assert(first_bad_origin(config.server.extra_origins@, i as int));
                    let r = Err(
                        ConfigError::Invalid(
                            join(
                                "extra_origins entry is not an http(s) origin: ",
                                origin.as_str(),
                            ),
                        ),
                    );
                    assert(loads(file, r));
                    return r;
                }
                i += 1;
            }
            Ok(config)
        },
    }
}

/// The file that a first run writes: every setting, commented out.
pub const TEMPLATE: &'static str = "[server]\n\
# Listening port for the WebSocket server.\n\
# port = 47115\n\
\n\
# Whether to accept connections from http(s)://localhost(:any-port), 127.0.0.1, or [::1].\n\
# allow_localhost = true\n\
\n\
# Additional exact-match origins (production frontends).\n\
# extra_origins = [\"https://app.example.com\"]\n\
\n\
# Token that every connection must pass as a query parameter. None by default.\n\
# auth_token = \"change-me\"\n";

/// What to write to the file, if it is not there yet.
pub fn write_template_if_missing(present: bool) -> (r: Option<String>)
    ensures
        if present {
            r is None
        } else {
            r matches Some(text) && text@ == TEMPLATE@
        },
{
    if present {
        None
    } else {
        Some(TEMPLATE.to_owned())
    }
}

/// Whether the line of a text that begins here sets nothing: it is blank, a comment,
/// or the header of the section.
pub open spec fn is_idle_line(text: Seq<char>, start: int) -> bool {
    ||| text[start] == '\n'
    ||| text[start] == '#'
    ||| text.skip(start).take(9) == "[server]\n"@
}

/// Law: the file that a first run writes sets nothing, so that it leaves every
/// default as it is: each of its lines is blank, a comment, or the section's header.
pub proof fn law_template_sets_nothing(start: int)
    requires
        0 <= start < TEMPLATE@.len(),
        start == 0 || TEMPLATE@[start - 1] == '\n',
    ensures
        is_idle_line(TEMPLATE@, start),
{
    reveal_strlit(
        "[server]\n\
# Listening port for the WebSocket server.\n\
# port = 47115\n\
\n\
# Whether to accept connections from http(s)://localhost(:any-port), 127.0.0.1, or [::1].\n\
# allow_localhost = true\n\
\n\
# Additional exact-match origins (production frontends).\n\
# extra_origins = [\"https://app.example.com\"]\n\
\n\
# Token that every connection must pass as a query parameter. None by default.\n\
# auth_token = \"change-me\"\n",
    );
    reveal_strlit("[server]\n");
    if start == 0 {
        assert(TEMPLATE@.skip(0).take(9) =~= "[server]\n"@);
    }
}

// ---------------------------------------------------------------------------
// The environment
// ---------------------------------------------------------------------------
/// The values of the environment variables that override the file.
#[derive(Debug)]
pub struct EnvOverrides {
    /// RSWEBTWAIN_PORT
    pub port: Option<String>,
    /// RSWEBTWAIN_ALLOWED_ORIGINS
    pub allowed_origins: Option<String>,
    /// RSWEBTWAIN_AUTH_TOKEN
    pub auth_token: Option<String>,
}

/// Which overrides were no use, and left the configured value as it was.
#[derive(Debug, Clone, Copy, PartialEq, Eq, Structural)]
pub struct OverrideWarnings {
    pub port: bool,
    pub auth_token: bool,
}

/// The number that decimal digits write.
pub open spec fn digits_value(digits: Seq<u8>) -> Option<nat>
    decreases digits.len(),
{
    if digits.len() == 0 {
        Some(0)
    } else {
        match digits_value(digits.drop_last()) {
            Some(n) => if '0' as u8 <= digits.last() <= '9' as u8 {
                Some((n * 10 + (digits.last() - '0' as u8)) as nat)
            } else {
                None
            },
            None => None,
        }
    }
}

/// The port that a text writes: decimal digits after an optional plus sign.
pub open spec fn port_value(text: Seq<u8>) -> Option<u16> {
    let digits = if text.len() > 0 && text[0] == '+' as u8 {
        text.skip(1)
    } else {
        text
    };
    match digits_value(digits) {
        Some(n) => if digits.len() > 0 && n <= 65535 {
            Some(n as u16)
        } else {
            None
        },
        None => None,
    }
}

proof fn lemma_digits_prefix(digits: Seq<u8>, k: int)
    requires
        0 <= k <= digits.len(),
        digits_value(digits) is Some,
    ensures
        digits_value(digits.take(k)) is Some,
        digits_value(digits.take(k)).unwrap() <= digits_value(digits).unwrap(),
    decreases digits.len() - k,
{
    if k == digits.len() {
        assert(digits.take(k) =~= digits);
    } else {
        lemma_digits_prefix(digits, k + 1);
        assert(digits.take(k + 1).drop_last() =~= digits.take(k));
    }
}

/// Read a port.
pub fn parse_port(text: &str) -> (r: Option<u16>)
    ensures
        r == port_value(encode_utf8(text@)),
{
    let bytes = text.as_bytes();
    let start: usize = if bytes.len() > 0 && bytes[0] == 43 {
        1
    } else {
        0
    };
    let ghost digits = bytes@.skip(start as int);
    let ghost written = digits_value(digits);
    proof {
        if start == 0 {
            assert(digits =~= bytes@);
        }
    }
    if start == bytes.len() {
        return None;
    }
    let mut value: u32 = 0;
    let mut i: usize = start;
    proof {
        assert(digits.take(0).len() == 0);
    }
    while i < bytes.len()
        invariant
            start <= i <= bytes@.len(),
            digits == bytes@.skip(start as int),
            written == digits_value(digits),
            digits.len() > 0,
            port_value(encode_utf8(text@)) == (match written {
                Some(n) => if n <= 65535 {
                    Some(n as u16)
                } else {
                    None
                },
                None => None,
            }),
            value <= 65535,
            digits_value(digits.take(i - start)) == Some(value as nat),
        decreases bytes.len() - i,
    {
        let b = bytes[i];
        proof {
            assert(digits.take(i - start + 1).drop_last() =~= digits.take(i - start));
            assert(digits.take(i - start + 1).last() == b);
            if digits_value(digits) is Some {
                lemma_digits_prefix(digits, i - start + 1);
            }
        }
        if b < 48 || b > 57 {
            return None;
        }
        value = value * 10 + (b - 48) as u32;
        if value > 65535 {
            return None;
        }
        i += 1;
    }
    proof {
        assert(digits.take(i - start) =~= digits);
    }
    Some(value as u16)
}

/// The configuration that overrides make of another.
pub open spec fn overridden(before: AgentConfig, env: EnvOverrides, after: AgentConfig) -> bool {
    &&& after.server.port == (match env.port {
        Some(text) => match port_value(encode_utf8(text@)) {
            Some(port) => port,
            None => before.server.port,
        },
        None => before.server.port,
    })
    &&& match env.allowed_origins {
        Some(list) => !after.server.allow_localhost && texts(after.server.extra_origins@) == split(
            list@,
            ',',
        ),
        None => after.server.allow_localhost == before.server.allow_localhost
            && after.server.extra_origins == before.server.extra_origins,
    }
    &&& after.server.auth_token == (match env.auth_token {
        Some(token) => if token@.len() > 0 {
            Some(token)
        } else {
            before.server.auth_token
        },
        None => before.server.auth_token,
    })
}

/// Let the environment override what is configured. A list of origins replaces the
/// whole origin policy; a port that is none, or an empty token, changes nothing.
pub fn apply_env_overrides(config: &mut AgentConfig, env: EnvOverrides) -> (r: OverrideWarnings)
    ensures
        overridden(*old(config), env, *final(config)),
        r.port == (env.port matches Some(text) && port_value(encode_utf8(text@)) is None),
        r.auth_token == (env.auth_token matches Some(token) && token@.len() == 0),
{
    let mut warnings = OverrideWarnings { port: false, auth_token: false };
    match &env.port {
        Some(text) => match parse_port(text.as_str()) {
            Some(port) => {
                config.server.port = port;
            },
            None => {
                warnings.port = true;
            },
        },
        None => {},
    }
    match &env.allowed_origins {
        Some(list) => {
            config.server.allow_localhost = false;
            config.server.extra_origins = split_text(list.as_str(), ',');
        },
        None => {},
    }
    match env.auth_token {
        Some(token) => if token.as_str().is_empty() {
            warnings.auth_token = true;
        } else {
            config.server.auth_token = Some(token);
        },
        None => {},
    }
    warnings
}

/// Law: a port that is written in decimal is read back.
pub proof fn law_port_round_trip(port: u16)
    ensures
        port_value(encode_utf8(decimal(port as nat))) == Some(port),
{
    lemma_decimal_value(port as nat);
    let bytes = encode_utf8(decimal(port as nat));
    assert(bytes[0] != '+' as u8) by {
        lemma_digits_prefix(bytes, 1);
        assert(bytes.take(1).last() == bytes[0]);
    }
}

proof fn lemma_decimal_value(n: nat)
    ensures
        digits_value(encode_utf8(decimal(n))) == Some(n),
        encode_utf8(decimal(n)).len() > 0,
    decreases n,
{
    let last = digit_char(n % 10);
    let bytes = encode_utf8(seq![last]);
    assert(is_ascii_chars(seq![last]));
    is_ascii_chars_encode_utf8(seq![last]);
    assert(bytes =~= seq![('0' as u8 + n % 10) as u8]);
    if n < 10 {
        assert(decimal(n) =~= seq![last]);
        assert(bytes.drop_last() =~= Seq::<u8>::empty());
        assert(digits_value(bytes.drop_last()) == Some(0nat));
    } else {
        let front = numeral(n / 10, 10, 0);
        assert(front == decimal(n / 10));
        lemma_decimal_value(n / 10);
        assert(decimal(n) =~= front + seq![last]);
        lemma_utf8_concat(front, seq![last]);
        let all = encode_utf8(decimal(n));
        assert(all.drop_last() =~= encode_utf8(front));
        assert(all.last() == bytes[0]);
        assert(n == (n / 10) * 10 + n % 10);
    }
}

/// Law: the environment's list of origins replaces the whole origin policy: what
/// was configured before makes no difference.
pub proof fn law_env_origins_replace_policy(
    first: AgentConfig,
    second: AgentConfig,
    env: EnvOverrides,
    first_after: AgentConfig,
    second_after: AgentConfig,
)
    requires
        env.allowed_origins is Some,
        overridden(first, env, first_after),
        overridden(second, env, second_after),
    ensures
        !first_after.server.allow_localhost,
        !second_after.server.allow_localhost,
        texts(first_after.server.extra_origins@) == texts(second_after.server.extra_origins@),
{
}

/// Law: without environment variables the configuration stays as it is.
pub proof fn law_no_env_no_change(before: AgentConfig, env: EnvOverrides, after: AgentConfig)
    requires
        env.port is None && env.allowed_origins is None && env.auth_token is None,
        overridden(before, env, after),
    ensures
        after == before,
{
}

/// Law: a port is read digit by digit. One digit is its value; another digit after
/// a port is ten times that port and the digit, as long as it is one; a character that
/// is no digit spoils it, and what is no port stays none.
pub proof fn law_ports_are_read_digit_by_digit(text: Seq<u8>, next: u8)
    ensures
        port_value(Seq::<u8>::empty()) is None,
        port_value(seq!['+' as u8]) is None,
        48 <= next <= 57 ==> port_value(seq![next]) == Some((next - 48) as u16),
        !(48 <= next <= 57) ==> port_value(text.push(next)) is None,
        48 <= next <= 57 && text.len() > 0 && text != seq!['+' as u8] ==> port_value(
            text.push(next),
        ) == (match port_value(text) {
            Some(port) => if port * 10 + (next - 48) <= 65535 {
                Some((port * 10 + (next - 48)) as u16)
            } else {
                None
            },
            None => None,
        }),
        text.len() > 0 && text[0] != '+' as u8 ==> port_value(seq!['+' as u8] + text)
            == port_value(text),
{
    reveal_with_fuel(digits_value, 2);
    assert(seq!['+' as u8].skip(1) =~= Seq::<u8>::empty());
    assert(seq![next].drop_last() =~= Seq::<u8>::empty());
    assert(seq![next].last() == next);
    assert((seq!['+' as u8] + text).skip(1) =~= text);
    let more = text.push(next);
    let signed = text.len() > 0 && text[0] == '+' as u8;
    if signed {
        assert(more.skip(1) =~= text.skip(1).push(next));
        assert(text.skip(1).push(next).drop_last() =~= text.skip(1));
        if text.skip(1).len() == 0 {
            assert(text =~= seq!['+' as u8]);
        }
    } else {
        assert(more.drop_last() =~= text);
        if text.len() == 0 && next == 43 {
            assert(more.skip(1) =~= Seq::<u8>::empty());
        }
    }
}

/// Law: each variable of the environment overrides its own setting and no other: a port
/// that is one, the list of origins, split at its commas, and a token that is not empty.
/// Whatever is not set, or is no use, leaves what is configured.
pub proof fn law_environment_overrides(before: AgentConfig, env: EnvOverrides, after: AgentConfig)
    requires
        overridden(before, env, after),
    ensures
        env.port matches Some(text) ==> (port_value(encode_utf8(text@)) matches Some(port)
            ==> after.server.port == port),
        (env.port matches Some(text) ==> port_value(encode_utf8(text@)) is None)
            ==> after.server.port == before.server.port,
        env.allowed_origins matches Some(list) ==> {
            &&& !after.server.allow_localhost
            &&& joined(texts(after.server.extra_origins@), ',') == list@
            &&& forall|i: int|
                0 <= i < after.server.extra_origins@.len() ==> !(
                #[trigger] after.server.extra_origins@[i])@.contains(',')
        },
        env.allowed_origins is None ==> after.server.allow_localhost
            == before.server.allow_localhost && after.server.extra_origins
            == before.server.extra_origins,
        env.auth_token matches Some(token) ==> (token@.len() > 0 ==> after.server.auth_token
            == Some(token)),
        (env.auth_token matches Some(token) ==> token@.len() == 0) ==> after.server.auth_token
            == before.server.auth_token,
{
    if let Some(list) = env.allowed_origins {
        law_split_is_reversible(list@, ',');
        law_texts_are_those_of_the_strings(after.server.extra_origins@);
        let parts = split(list@, ',');
        assert forall|i: int| 0 <= i < after.server.extra_origins@.len() implies !(
        #[trigger] after.server.extra_origins@[i])@.contains(',') by {
            assert(texts(after.server.extra_origins@)[i] == parts[i]);
            if parts[i].contains(',') {
                let j = choose|j: int| 0 <= j < parts[i].len() && parts[i][j] == ',';
                assert(parts[i][j] != ',');
            }
        }
    }
}

/// Law: an origin may be listed exactly where it is a URL of the web with no more than a
/// slash for a path, and with neither query nor fragment.
pub proof fn law_listed_origins_are_of_the_web(text: Seq<char>)
    ensures
        is_origin(text) <==> {
            &&& url_scheme(text) == Some("http"@) || url_scheme(text) == Some("https"@)
            &&& url_path(text).len() == 0 || url_path(text) == "/"@
            &&& forall|k: int|
                0 <= k < text.len() ==> #[trigger] text[k] != '?' && text[k] != '#'
        },
{
    reveal_strlit("");
    if url_path(text).len() == 0 {
        assert(url_path(text) =~= ""@);
    }
    if exists|k: int| 0 <= k < text.len() && #[trigger] text[k] == '?' {
        assert(text.contains('?'));
    }
    if exists|k: int| 0 <= k < text.len() && #[trigger] text[k] == '#' {
        assert(text.contains('#'));
    }
}

/// Law: a file that lists nothing but origins is taken as it is; one that lists anything
/// else is refused for the first such entry.
pub proof fn law_files_are_taken_as_they_are(
    config: AgentConfig,
    r: Result<AgentConfig, ConfigError>,
    k: int,
)
    requires
        loads(ConfigFile::Parsed(config), r),
    ensures
        (forall|i: int|
            0 <= i < config.server.extra_origins@.len() ==> is_origin(
                (#[trigger] config.server.extra_origins@[i])@,
            )) ==> r == Ok::<AgentConfig, ConfigError>(config),
        0 <= k < config.server.extra_origins@.len() && !is_origin(
            config.server.extra_origins@[k]@,
        ) && (forall|i: int|
            0 <= i < k ==> is_origin((#[trigger] config.server.extra_origins@[i])@)) ==> (
        r matches Err(ConfigError::Invalid(m)) && m@
            == "extra_origins entry is not an http(s) origin: "@
            + config.server.extra_origins@[k]@),
{
    let origins = config.server.extra_origins@;
    if let Err(ConfigError::Invalid(m)) = r {
        let i = choose|i: int|
            #[trigger] first_bad_origin(origins, i) && m@ == bad_origin_text(origins[i]@);
        assert(!is_origin(origins[i]@));
    }
}

/// Law: a file that is missing leaves the defaults, which are the agent's own port, the
/// pages of this machine, no other origins and no token; one that cannot be used is an
/// error, in the words of what went wrong.
pub proof fn law_files_that_are_no_use(e: String, r: Result<AgentConfig, ConfigError>)
    ensures
        loads(ConfigFile::Missing, r) ==> (r matches Ok(config) && config.server.port == 47115
            && config.server.allow_localhost && config.server.extra_origins@.len() == 0
            && config.server.auth_token is None),
        loads(ConfigFile::Unreadable(e), r) ==> (r matches Err(err) && err.text()
            == "config I/O error: "@ + e@),
        loads(ConfigFile::Malformed(e), r) ==> (r matches Err(err) && err.text()
            == "config parse error: "@ + e@),
        ConfigError::Invalid(e).text() == "config invalid: "@ + e@,
{
}

} // verus!
