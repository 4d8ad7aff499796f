//! URLs, taken apart.

use vstd::prelude::*;
use vstd::string::*;

use crate::text::decimal;

verus! {

/// The parts of a URL.
#[derive(Debug)]
pub struct UrlParts {
    /// The URL in its normal form.
    pub text: String,
    pub scheme: String,
    pub host: Option<String>,
    pub path: String,
    /// The pairs of its query, decoded.
    pub query: Vec<(String, String)>,
}

/// The scheme of the URL that a text is, if it is one.
pub uninterp spec fn url_scheme(text: Seq<char>) -> Option<Seq<char>>;

/// The host of the URL that a text is, if it has one.
pub uninterp spec fn url_host(text: Seq<char>) -> Option<Seq<char>>;

/// The path of the URL that a text is.
pub uninterp spec fn url_path(text: Seq<char>) -> Seq<char>;

/// The decoded query pairs of the URL that a text is.
pub uninterp spec fn url_pairs(text: Seq<char>) -> Seq<(Seq<char>, Seq<char>)>;

/// The normal form of the URL that a text is.
pub uninterp spec fn url_text(text: Seq<char>) -> Seq<char>;

/// What pairs of strings hold.
pub open spec fn pairs_view(pairs: Seq<(String, String)>) -> Seq<(Seq<char>, Seq<char>)> {
    pairs.map_values(|pair: (String, String)| (pair.0@, pair.1@))
}

/// What an optional string holds.
pub open spec fn option_view(s: Option<String>) -> Option<Seq<char>> {
    match s {
        Some(s) => Some(s@),
        None => None,
    }
}

/// Whether a host is that of this machine, as URLs write it.
pub open spec fn is_loopback(host: Seq<char>) -> bool {
    host == "localhost"@ || host == "127.0.0.1"@ || host == "[::1]"@
}

/// Whether `text` is the origin of a page that this machine serves: a scheme and a
/// host, on its default port or on any other.
pub open spec fn is_local_origin(text: Seq<char>, scheme: Seq<char>, host: Seq<char>) -> bool {
    &&& scheme == "http"@ || scheme == "https"@
    &&& is_loopback(host)
    &&& {
        ||| text == scheme + "://"@ + host
        ||| exists|port: u16|
            text == scheme + "://"@ + host + ":"@ + #[trigger] decimal(port as nat)
    }
}

/// `url::Url::parse`, and `scheme`, `host_str`, `path`, `query_pairs` and
/// `to_string` of the URL it gives. All are functions of the text alone. The
/// origin of a page that this machine serves is a URL, and its scheme and host
/// are those it is written with.
#[verifier::external_body]
pub(crate) fn parse_url(text: &str) -> (r: Option<UrlParts>)
    ensures
        r is Some <==> url_scheme(text@) is Some,
        r is Some ==> r.unwrap().scheme@ == url_scheme(text@).unwrap(),
        r is Some ==> option_view(r.unwrap().host) == url_host(text@),
        r is Some ==> r.unwrap().path@ == url_path(text@),
        r is Some ==> pairs_view(r.unwrap().query@) == url_pairs(text@),
        r is Some ==> r.unwrap().text@ == url_text(text@),
        forall|scheme: Seq<char>, host: Seq<char>| #[trigger]
            is_local_origin(text@, scheme, host) ==> r is Some && r.unwrap().scheme@ == scheme
                && option_view(r.unwrap().host) == Some(host),
{
    let url = url::Url::parse(text).ok()?;
    let pairs = url.query_pairs().map(|(key, value)| (key.into_owned(), value.into_owned()));
    Some(
        UrlParts {
            query: pairs.collect(),
            text: url.to_string(),
            scheme: url.scheme().to_string(),
            host: url.host_str().map(|host| host.to_string()),
            path: url.path().to_string(),
        },
    )
}

/// Law: an optional string holds its text, and pairs of strings hold theirs, in order.
pub proof fn law_views_hold_the_text(s: Option<String>, pairs: Seq<(String, String)>)
    ensures
        s matches Some(text) ==> option_view(s) == Some(text@),
        s is None ==> option_view(s) is None,
        pairs_view(pairs).len() == pairs.len(),
        forall|i: int|
            0 <= i < pairs.len() ==> (#[trigger] pairs_view(pairs)[i]).0 == pairs[i].0@
                && pairs_view(pairs)[i].1 == pairs[i].1@,
{
}

/// Law: these are the hosts of this machine, and no others.
pub proof fn law_loopback_hosts(host: Seq<char>)
    ensures
        is_loopback(host) <==> host == "localhost"@ || host == "127.0.0.1"@ || host == "[::1]"@,
{
}

/// Law: a page of this machine is known by its origin, of either scheme of the web, by any
/// of the machine's hosts, and on the default port or on any other.
pub proof fn law_local_pages_have_local_origins(scheme: Seq<char>, host: Seq<char>, port: u16)
    requires
        scheme == "http"@ || scheme == "https"@,
        host == "localhost"@ || host == "127.0.0.1"@ || host == "[::1]"@,
    ensures
        is_local_origin(scheme + "://"@ + host, scheme, host),
        is_local_origin(scheme + "://"@ + host + ":"@ + decimal(port as nat), scheme, host),
{
}

} // verus!
