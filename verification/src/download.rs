//! Decisions of the HTTP side of downloading: which headers a request carries,
//! when a response is accepted, and when downloaded bytes are acceptable.
use vstd::prelude::*;
use vstd::utf8::encode_utf8;
use crate::text::{law_trim_idempotent, trim, trim_spec};

verus! {

/// The scheme and host that `url::Url::parse` reads out of `input`, or `None`
/// when it does not accept `input` as an absolute URL.
pub uninterp spec fn url_scheme_host(input: Seq<char>) -> Option<(Seq<char>, Option<Seq<char>>)>;

/// The view of a parsed scheme and host.
pub open spec fn parts_view(parts: Option<(String, Option<String>)>) -> Option<
    (Seq<char>, Option<Seq<char>>),
> {
    match parts {
        Some((scheme, Some(host))) => Some((scheme@, Some(host@))),
        Some((scheme, None)) => Some((scheme@, None)),
        None => None,
    }
}

/// `url::Url::parse`, then `Url::scheme` and `Url::host_str` on the result.
/// Trusted: the answer is what the `url` crate reads from `input`, named
/// `url_scheme_host`; nothing else about URL parsing is claimed.
#[verifier::external_body]
fn parse_scheme_host(input: &str) -> (r: Option<(String, Option<String>)>)
    ensures
        parts_view(r) == url_scheme_host(input@),
{
    match url::Url::parse(input) {
        Ok(u) => Some(
            (
                u.scheme().to_string(),
                match u.host_str() {
                    Some(h) => Some(h.to_string()),
                    None => None,
                },
            ),
        ),
        Err(_) => None,
    }
}

/// The origin a request for `url` presents itself from: `scheme://host/` when
/// `url` parses with a host, else `url` itself.
pub open spec fn origin_of(url: Seq<char>, parts: Option<(Seq<char>, Option<Seq<char>>)>) -> Seq<
    char,
> {
    match parts {
        Some((scheme, Some(host))) => scheme + "://"@ + host + "/"@,
        _ => url,
    }
}

/// The origin of `url`, given what the URL parser read from it.
pub fn origin_from_parts(url: &str, parts: Option<(String, Option<String>)>) -> (r: String)
    ensures
        r@ == origin_of(url@, parts_view(parts)),
{
    match parts {
        Some((scheme, Some(host))) => {
            let mut s = scheme;
            s.append("://");
            s.append(host.as_str());
            s.append("/");
            s
        },
        _ => String::from_str(url),
    }
}

/// The origin of `url` (`scheme://host/`, or `url` itself when it has none).
pub fn origin_from_url(url: &str) -> (r: String)
    ensures
        r@ == origin_of(url@, url_scheme_host(url@)),
{
    let parts = parse_scheme_host(url);
    origin_from_parts(url, parts)
}

/// The URL parser reads the scheme and host of `url` back unchanged from the
/// origin it gives (`scheme://host/`); vacuous when `url` has no host.
pub open spec fn origin_reads_back(url: Seq<char>) -> bool {
    url_scheme_host(url) matches Some((scheme, Some(host))) ==> url_scheme_host(
        scheme + "://"@ + host + "/"@,
    ) == Some((scheme, Some(host)))
}

/// Law: the origin of an origin is that origin.  For a link without a host (or
/// one the parser rejects) this holds outright; for a link with a host it rests
/// on the parser reading `scheme://host/` back as the same scheme and host,
/// which is the premise of the law there.
pub proof fn law_origin_idempotent(url: Seq<char>)
    ensures
        origin_reads_back(url) ==> origin_of(
            origin_of(url, url_scheme_host(url)),
            url_scheme_host(origin_of(url, url_scheme_host(url))),
        ) == origin_of(url, url_scheme_host(url)),
{
}

/// A byte that may stand in an HTTP header value.
pub open spec fn header_byte_ok(b: u8) -> bool {
    (b >= 32 && b != 127) || b == 9
}

/// Text whose UTF-8 encoding may stand in an HTTP header value.
pub open spec fn header_value_ok(s: Seq<char>) -> bool {
    forall|i: int| 0 <= i < encode_utf8(s).len() ==> header_byte_ok(#[trigger] encode_utf8(s)[i])
}

/// `reqwest::header::HeaderValue::from_str(s).is_ok()`.  Trusted: the http
/// crate accepts exactly the strings whose bytes are all tab or in 32..=255
/// other than 127.
#[verifier::external_body]
fn header_value_accepted(s: &str) -> (r: bool)
    ensures
        r == header_value_ok(s@),
{
    reqwest::header::HeaderValue::from_str(s).is_ok()
}

/// The request headers the downloader sets.
#[derive(Clone, Copy, Debug, PartialEq, Eq, Structural)]
pub enum HeaderField {
    Accept,
    AcceptLanguage,
    Referer,
    Origin,
    Cookie,
}

/// The headers of a download request, in the order they are set.
pub open spec fn header_plan(origin: Seq<char>, cookies: Option<Seq<char>>) -> Seq<
    (HeaderField, Seq<char>),
> {
    let base = seq![(HeaderField::Accept, "*/*"@), (HeaderField::AcceptLanguage, "en-US,en;q=0.9"@)];
    let with_origin = if header_value_ok(origin) {
        base + seq![(HeaderField::Referer, origin), (HeaderField::Origin, origin)]
    } else {
        base
    };
    match cookies {
        Some(c) => if header_value_ok(c) {
            with_origin.push((HeaderField::Cookie, c))
        } else {
            with_origin
        },
        None => with_origin,
    }
}

/// Law: every request asks for any content in US English; it names its origin
/// as both referer and origin or not at all; and it carries cookies only when
/// they are configured.
pub proof fn law_header_plan(origin: Seq<char>, cookies: Option<Seq<char>>)
    ensures
        header_plan(origin, cookies)[0] == (HeaderField::Accept, "*/*"@),
        header_plan(origin, cookies)[1] == (HeaderField::AcceptLanguage, "en-US,en;q=0.9"@),
        header_value_ok(origin) ==> header_plan(origin, cookies)[2] == (HeaderField::Referer, origin)
            && header_plan(origin, cookies)[3] == (HeaderField::Origin, origin),
        !header_value_ok(origin) ==> forall|i: int|
            0 <= i < header_plan(origin, cookies).len() ==> (#[trigger] header_plan(origin, cookies)[i]).0
                != HeaderField::Referer && header_plan(origin, cookies)[i].0 != HeaderField::Origin,
        forall|i: int|
            0 <= i < header_plan(origin, cookies).len() && (#[trigger] header_plan(origin, cookies)[i]).0
                == HeaderField::Cookie ==> cookies == Some(header_plan(origin, cookies)[i].1),
        cookies is Some && header_value_ok(cookies->0) ==> header_plan(origin, cookies).last() == (
        HeaderField::Cookie, cookies->0),
        header_plan(origin, cookies).len() == 2 + (if header_value_ok(origin) {
            2int
        } else {
            0int
        }) + (if cookies is Some && header_value_ok(cookies->0) {
            1int
        } else {
            0int
        }),
{
}

/// The view of a header list.
pub open spec fn headers_view(h: Seq<(HeaderField, String)>) -> Seq<(HeaderField, Seq<char>)> {
    h.map_values(|p: (HeaderField, String)| (p.0, p.1@))
}

/// The view of an optional string.
pub open spec fn opt_view(o: Option<String>) -> Option<Seq<char>> {
    match o {
        Some(s) => Some(s@),
        None => None,
    }
}

/// The headers of a request made on behalf of `origin`, with the configured cookies.
pub fn headers_for_origin(origin: &str, cookies: &Option<String>) -> (r: Vec<(HeaderField, String)>)
    ensures
        headers_view(r@) == header_plan(origin@, opt_view(*cookies)),
{
    let mut h: Vec<(HeaderField, String)> = Vec::new();
    h.push((HeaderField::Accept, String::from_str("*/*")));
    h.push((HeaderField::AcceptLanguage, String::from_str("en-US,en;q=0.9")));
    if header_value_accepted(origin) {
        h.push((HeaderField::Referer, String::from_str(origin)));
        h.push((HeaderField::Origin, String::from_str(origin)));
    }
    match cookies {
        Some(c) => {
            if header_value_accepted(c.as_str()) {
                h.push((HeaderField::Cookie, c.clone()));
            }
        },
        None => {},
    }
    assert(headers_view(h@) =~= header_plan(origin@, opt_view(*cookies)));
    h
}

/// The browser-like headers of a request for `video_url`.
pub fn browser_headers(video_url: &str, cookies: &Option<String>) -> (r: Vec<(HeaderField, String)>)
    ensures
        headers_view(r@) == header_plan(
            origin_of(video_url@, url_scheme_host(video_url@)),
            opt_view(*cookies),
        ),
{
    let origin = origin_from_url(video_url);
    headers_for_origin(origin.as_str(), cookies)
}

/// The cookie setting made of the raw environment value: trimmed, and absent when empty.
pub open spec fn cookies_spec(raw: Option<Seq<char>>) -> Option<Seq<char>> {
    match raw {
        Some(s) => if trim_spec(s).len() > 0 {
            Some(trim_spec(s))
        } else {
            None
        },
        None => None,
    }
}

/// Law: configured cookies are never empty and carry no surrounding whitespace.
pub proof fn law_cookies_trimmed(raw: Option<Seq<char>>)
    ensures
        cookies_spec(raw) matches Some(c) ==> c.len() > 0 && trim_spec(c) == c,
{
    if let Some(s) = raw {
        law_trim_idempotent(s);
    }
}

/// The cookies to send, from the raw value of the cookie variable.
pub fn cookies_setting(raw: Option<String>) -> (r: Option<String>)
    ensures
        opt_view(r) == cookies_spec(opt_view(raw)),
{
    match raw {
        Some(s) => {
            let t = trim(s.as_str());
            if t.as_str().is_empty() {
                None
            } else {
                Some(t)
            }
        },
        None => None,
    }
}

/// A success status (200..=299).
pub open spec fn is_success_spec(status: u16) -> bool {
    200 <= status <= 299
}

/// Whether `status` is a success status.
pub fn is_success(status: u16) -> (r: bool)
    ensures
        r == is_success_spec(status),
{
    200 <= status && status <= 299
}

/// Why a download failed.
#[derive(Debug)]
pub enum DownloadError {
    /// The HTTP request did not finish in time.
    TimedOut,
    /// The HTTP client failed (its message).
    Request(String),
    /// The server answered with a non-success status (its text).
    Status(String),
    /// The server announced more bytes than allowed.
    DeclaredTooLarge(u64),
    /// More bytes arrived than allowed.
    TooLarge(u64),
    /// No bytes arrived.
    Empty,
    /// The fallback tool did not finish in time.
    ToolTimedOut,
    /// The fallback tool could not be started (the reason).
    ToolNotStarted(String),
    /// The fallback tool reported failure (its trimmed output and error output).
    ToolFailed { stdout: String, stderr: String },
    /// The fallback tool finished without leaving its output file (its trimmed error output).
    ToolOutputMissing(String),
    /// The fallback tool left an empty file.
    ToolEmpty,
    /// Reading or writing a file failed (the reason).
    Io(String),
}

/// What size the HEAD probe reports: the announced length of a successful answer.
pub open spec fn probe_spec(status: u16, content_length: Option<u64>) -> Option<u64> {
    if is_success_spec(status) {
        content_length
    } else {
        None
    }
}

/// The size a HEAD answer reports, if any.
pub fn probe_size(status: u16, content_length: Option<u64>) -> (r: Option<u64>)
    ensures
        r == probe_spec(status, content_length),
{
    if is_success(status) {
        content_length
    } else {
        None
    }
}

/// Whether the head of a GET answer lets the body be read: a success status,
/// and no announced length above `max`.
pub fn check_response_head(status: u16, status_text: String, content_length: Option<u64>, max: u64) -> (r: Result<(), DownloadError>)
    ensures
        !is_success_spec(status) ==> (r matches Err(DownloadError::Status(t)) && t@ == status_text@),
        is_success_spec(status) && content_length is Some && content_length->0 > max ==> (r
            matches Err(DownloadError::DeclaredTooLarge(n)) && n == content_length->0),
        is_success_spec(status) && (content_length is None || content_length->0 <= max) ==> r is Ok,
{
    if !is_success(status) {
        return Err(DownloadError::Status(status_text));
    }
    match content_length {
        Some(n) => if n > max {
            Err(DownloadError::DeclaredTooLarge(n))
        } else {
            Ok(())
        },
        None => Ok(()),
    }
}

/// Whether a downloaded payload of `len` bytes is acceptable: at most `max`
/// bytes and not empty.  `from_tool` tells which empty-payload error applies.
pub fn check_payload(len: usize, max: u64, from_tool: bool) -> (r: Result<(), DownloadError>)
    ensures
        len > max ==> (r matches Err(DownloadError::TooLarge(n)) && n == len),
        len <= max && len == 0 && !from_tool ==> r matches Err(DownloadError::Empty),
        len <= max && len == 0 && from_tool ==> r matches Err(DownloadError::ToolEmpty),
        r is Ok <==> 0 < len <= max,
{
    if len as u64 > max {
        Err(DownloadError::TooLarge(len as u64))
    } else if len == 0 {
        if from_tool {
            Err(DownloadError::ToolEmpty)
        } else {
            Err(DownloadError::Empty)
        }
    } else {
        Ok(())
    }
}

} // verus!
