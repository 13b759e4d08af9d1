//! Addresses of the streaming endpoint.
//!
//! URLs are read and changed by the `url` crate. What it computes is known
//! here only by name: [`url_parse`], [`url_push`], [`url_query`], [`url_host`]
//! and [`url_port`] stand for its results, and the functions of this module
//! say how the address of an endpoint is put together from them.

use crate::errors::{Error, UrlError};
use crate::topics::{combined_stream, joined, STREAM_ENDPOINT, WS_ENDPOINT};
use url::ParseError;
use url::Url;
use vstd::prelude::*;
use vstd::utf8::{encode_utf8, is_ascii_chars, is_ascii_chars_encode_utf8};

verus! {

/// Longest URL, segment or query, in bytes, that is handed on to be changed.
/// A URL holds its positions in 32 bits; with every part below this bound the
/// result stays far below that, whatever is escaped.
pub const MAX_URL_BYTES: usize = 0x0FFF_FFFF;

/// The serialisation of the URL that `Url::parse` reads from `input`, if it
/// reads one.
pub uninterp spec fn url_parse(input: Seq<char>) -> Option<Seq<char>>;

/// The serialisation of the URL `url` after `PathSegmentsMut::push` has
/// appended `segment` to its path; `None` where `url` is not an absolute URL
/// or cannot carry path segments.
pub uninterp spec fn url_push(url: Seq<char>, segment: Seq<char>) -> Option<Seq<char>>;

/// The serialisation of the URL `url` after `Url::set_query` has replaced its
/// query by `query`; `None` where `url` is not an absolute URL.
pub uninterp spec fn url_query(url: Seq<char>, query: Seq<char>) -> Option<Seq<char>>;

/// What `Url::host_str` gives for the URL `url`; `None` also where `url` is
/// not an absolute URL.
pub uninterp spec fn url_host(url: Seq<char>) -> Option<Seq<char>>;

/// What `Url::port_or_known_default` gives for the URL `url`; `None` also
/// where `url` is not an absolute URL.
pub uninterp spec fn url_port(url: Seq<char>) -> Option<u16>;

/// Length of `text` in bytes, as UTF-8.
pub open spec fn byte_len(text: Seq<char>) -> nat {
    encode_utf8(text).len()
}

/// Calls `Url::parse` and hands back the URL's serialisation. Claimed: the
/// outcome depends on the text alone, and is the one [`url_parse`] names.
#[verifier::external_body]
fn parse_url(input: &str) -> (parsed: Result<String, ParseError>)
    ensures
        parsed matches Ok(text) ==> url_parse(input@) == Some(text@),
        parsed is Err ==> url_parse(input@) is None,
{
    Url::parse(input).map(String::from)
}

/// Calls `Url::path_segments_mut` and `PathSegmentsMut::push` on the URL that
/// `url` parses to. Claimed: the new serialisation is the one [`url_push`]
/// names. The bound keeps the URL within the 32 bits of its positions, beyond
/// which the crate panics.
#[verifier::external_body]
fn push_path_segment(url: &str, segment: &str) -> (pushed: Option<String>)
    requires
        byte_len(url@) <= MAX_URL_BYTES,
        byte_len(segment@) <= MAX_URL_BYTES,
    ensures
        pushed matches Some(text) ==> url_push(url@, segment@) == Some(text@),
        pushed is None ==> url_push(url@, segment@) is None,
{
    let mut parsed = Url::parse(url).ok()?;
    parsed.path_segments_mut().ok()?.push(segment);
    Some(parsed.into())
}

/// Calls `Url::set_query` on the URL that `url` parses to. Claimed: the new
/// serialisation is the one [`url_query`] names. The bound is that of
/// [`push_path_segment`].
#[verifier::external_body]
fn replace_query(url: &str, query: &str) -> (replaced: Option<String>)
    requires
        byte_len(url@) <= MAX_URL_BYTES,
        byte_len(query@) <= MAX_URL_BYTES,
    ensures
        replaced matches Some(text) ==> url_query(url@, query@) == Some(text@),
        replaced is None ==> url_query(url@, query@) is None,
{
    let mut parsed = Url::parse(url).ok()?;
    parsed.set_query(Some(query));
    Some(parsed.into())
}

/// Calls `Url::host_str` on the URL that `url` parses to. Claimed: the host
/// is the one [`url_host`] names.
#[verifier::external_body]
fn host_of(url: &str) -> (host: Option<String>)
    ensures
        host matches Some(text) ==> url_host(url@) == Some(text@),
        host is None ==> url_host(url@) is None,
{
    Url::parse(url).ok()?.host_str().map(String::from)
}

/// Calls `Url::port_or_known_default` on the URL that `url` parses to.
/// Claimed: the port is the one [`url_port`] names.
#[verifier::external_body]
fn port_of(url: &str) -> (port: Option<u16>)
    ensures
        port == url_port(url@),
{
    Url::parse(url).ok()?.port_or_known_default()
}

/// Where a connection goes: the URL to shake hands with, and the host and
/// port behind it, which a tunnel is opened to.
#[derive(Debug, PartialEq, Eq)]
pub struct Target {
    /// The URL, as the `url` crate writes it.
    pub url: String,
    /// Host of the URL, if it has one.
    pub host: Option<String>,
    /// Port of the URL: the one written in it, else the one its scheme is
    /// known for, if any.
    pub port: Option<u16>,
}

/// A target as plain values.
pub struct TargetView {
    pub url: Seq<char>,
    pub host: Option<Seq<char>>,
    pub port: Option<u16>,
}

impl View for Target {
    type V = TargetView;

    open spec fn view(&self) -> TargetView {
        TargetView {
            url: self.url@,
            host: match self.host {
                Some(host) => Some(host@),
                None => None,
            },
            port: self.port,
        }
    }
}

/// The target that the URL `url` stands for.
pub open spec fn target_of(url: Seq<char>) -> TargetView {
    TargetView { url, host: url_host(url), port: url_port(url) }
}

/// What stands in the way of an address, without the parser's finding.
pub enum UrlFault {
    Syntax,
    CannotBeABase,
    TooLong,
}

/// The kind of a URL error.
pub open spec fn fault_of(error: UrlError) -> UrlFault {
    match error {
        UrlError::Syntax(_) => UrlFault::Syntax,
        UrlError::CannotBeABase => UrlFault::CannotBeABase,
        UrlError::TooLong => UrlFault::TooLong,
    }
}

/// An address as the exec functions hand it out, against the address that
/// the spec functions give: the same target, or an error of the same kind.
pub open spec fn located(found: Result<Target, Error>, wanted: Result<TargetView, UrlFault>) -> bool {
    match wanted {
        Ok(target) => found matches Ok(t) && t@ == target,
        Err(fault) => found matches Err(Error::UrlParse(e)) && fault_of(e) == fault,
    }
}

/// Text of the address of one named endpoint: `<base>/ws/<endpoint>`.
pub open spec fn endpoint_text(base: Seq<char>, endpoint: Seq<char>) -> Seq<char> {
    base + seq!['/'] + WS_ENDPOINT@ + seq!['/'] + endpoint
}

/// The target of one named endpoint under `base`.
pub open spec fn endpoint_target(base: Seq<char>, endpoint: Seq<char>) -> Result<
    TargetView,
    UrlFault,
> {
    match url_parse(endpoint_text(base, endpoint)) {
        Some(url) => Ok(target_of(url)),
        None => Err(UrlFault::Syntax),
    }
}

/// Query of a multi-stream subscription: `streams=<topic>/<topic>/...`.
pub open spec fn streams_query(topics: Seq<Seq<char>>) -> Seq<char> {
    "streams="@ + joined(topics)
}

/// The target of the multi-stream endpoint under `base`, subscribed to
/// `topics`: the base URL, with the segment `stream` appended to its path and
/// the topics as its query.
pub open spec fn combined_target(base: Seq<char>, topics: Seq<Seq<char>>) -> Result<
    TargetView,
    UrlFault,
> {
    match url_parse(base) {
        None => Err(UrlFault::Syntax),
        Some(parsed) => if byte_len(parsed) > MAX_URL_BYTES {
            Err(UrlFault::TooLong)
        } else {
            match url_push(parsed, STREAM_ENDPOINT@) {
                None => Err(UrlFault::CannotBeABase),
                Some(pathed) => if byte_len(pathed) > MAX_URL_BYTES || byte_len(
                    streams_query(topics),
                ) > MAX_URL_BYTES {
                    Err(UrlFault::TooLong)
                } else {
                    match url_query(pathed, streams_query(topics)) {
                        None => Err(UrlFault::CannotBeABase),
                        Some(full) => Ok(target_of(full)),
                    }
                },
            }
        },
    }
}

/// Length of `text` in bytes.
fn byte_count(text: &str) -> (count: usize)
    ensures
        count == byte_len(text@),
{
    text.as_bytes().len()
}

/// Reads host and port off a URL.
fn locate(url: String) -> (target: Target)
    ensures
        target@ == target_of(url@),
{
    let host = host_of(url.as_str());
    let port = port_of(url.as_str());
    Target { url, host, port }
}

/// The address of one named endpoint, `<base>/ws/<endpoint>`, parsed.
///
/// Fails with a syntax error exactly where that text is not an absolute URL.
pub fn endpoint_address(base: &str, endpoint: &str) -> (found: Result<Target, Error>)
    ensures
        located(found, endpoint_target(base@, endpoint@)),
{
    proof {
        reveal_strlit("/");
        assert("/"@ =~= seq!['/']);
    }
    let mut text = String::from_str(base);
    text.append("/");
    text.append(WS_ENDPOINT);
    text.append("/");
    text.append(endpoint);
    assert(text@ =~= endpoint_text(base@, endpoint@));
    match parse_url(text.as_str()) {
        Ok(url) => Ok(locate(url)),
        Err(e) => Err(Error::UrlParse(UrlError::Syntax(e))),
    }
}

/// The address of the multi-stream endpoint for the given topics:
/// `<base>/stream?streams=<topic>/<topic>/...`, the topics in the order given.
///
/// Fails with a syntax error where `base` is not an absolute URL, with
/// `CannotBeABase` where it cannot carry a path, and with `TooLong` where the
/// URL or the query exceeds [`MAX_URL_BYTES`].
pub fn combined_address(base: &str, topics: Vec<String>) -> (found: Result<Target, Error>)
    ensures
        located(found, combined_target(base@, topics.deep_view())),
{
    let parsed = match parse_url(base) {
        Ok(url) => url,
        Err(e) => {
            return Err(Error::UrlParse(UrlError::Syntax(e)));
        },
    };
    if byte_count(parsed.as_str()) > MAX_URL_BYTES {
        return Err(Error::UrlParse(UrlError::TooLong));
    }
    proof {
        reveal_strlit("stream");
        assert(is_ascii_chars(STREAM_ENDPOINT@));
        is_ascii_chars_encode_utf8(STREAM_ENDPOINT@);
    }
    let pathed = match push_path_segment(parsed.as_str(), STREAM_ENDPOINT) {
        Some(url) => url,
        None => {
            return Err(Error::UrlParse(UrlError::CannotBeABase));
        },
    };
    let mut query = String::from_str("streams=");
    let path = combined_stream(topics);
    query.append(path.as_str());
    assert(query@ =~= streams_query(topics.deep_view()));
    if byte_count(pathed.as_str()) > MAX_URL_BYTES || byte_count(query.as_str()) > MAX_URL_BYTES {
        return Err(Error::UrlParse(UrlError::TooLong));
    }
    match replace_query(pathed.as_str(), query.as_str()) {
        Some(url) => Ok(locate(url)),
        None => Err(Error::UrlParse(UrlError::CannotBeABase)),
    }
}

} // verus!
