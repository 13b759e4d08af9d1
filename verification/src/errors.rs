//! The failures that the client reports.

use vstd::prelude::*;

verus! {

/// The error that `url::Url::parse` reports. It is carried through unread.
#[verifier::external_type_specification]
#[verifier::external_body]
pub struct ExParseError(url::ParseError);

/// Why an endpoint address could not be turned into a usable URL.
#[derive(Debug, PartialEq, Eq)]
pub enum UrlError {
    /// The text is not an absolute URL; the parser's finding is attached.
    Syntax(url::ParseError),
    /// The URL cannot carry path segments (`mailto:`, `data:` and the like).
    CannotBeABase,
    /// The URL or the subscription list is longer than a URL may become.
    TooLong,
}

/// What a peer sent along with its close frame.
#[derive(Debug, PartialEq, Eq)]
pub struct ClosePayload {
    pub code: u16,
    pub reason: String,
}

/// A close payload as plain values.
pub struct ClosePayloadView {
    pub code: u16,
    pub reason: Seq<char>,
}

impl View for ClosePayload {
    type V = ClosePayloadView;

    open spec fn view(&self) -> ClosePayloadView {
        ClosePayloadView { code: self.code, reason: self.reason@ }
    }
}

/// The close payload of a frame, if it has one, as plain values.
pub open spec fn payload_view(payload: Option<ClosePayload>) -> Option<ClosePayloadView> {
    match payload {
        Some(p) => Some(p@),
        None => None,
    }
}

/// Every way in which connecting, reading or disconnecting can fail.
#[derive(Debug, PartialEq, Eq)]
pub enum Error {
    /// The endpoint address is not a usable URL.
    UrlParse(UrlError),
    /// The SOCKS5 tunnel could not be established; carries the cause.
    ProxyConnect(String),
    /// The WebSocket handshake failed, directly or over the tunnel; carries the cause.
    Handshake(String),
    /// Reading from or closing the socket failed; carries the cause.
    Transport(String),
    /// A text frame did not decode into an event; carries the cause.
    Decode(String),
    /// For handlers to report a failure of their own.
    Handler(String),
    /// The peer closed the connection; carries its close payload, if it sent one.
    Disconnected(Option<ClosePayload>),
    /// No connection is held.
    NotConnected,
}

/// An error as plain values.
pub enum ErrorView {
    UrlParse(UrlError),
    ProxyConnect(Seq<char>),
    Handshake(Seq<char>),
    Transport(Seq<char>),
    Decode(Seq<char>),
    Handler(Seq<char>),
    Disconnected(Option<ClosePayloadView>),
    NotConnected,
}

impl View for Error {
    type V = ErrorView;

    open spec fn view(&self) -> ErrorView {
        match *self {
            Error::UrlParse(e) => ErrorView::UrlParse(e),
            Error::ProxyConnect(cause) => ErrorView::ProxyConnect(cause@),
            Error::Handshake(cause) => ErrorView::Handshake(cause@),
            Error::Transport(cause) => ErrorView::Transport(cause@),
            Error::Decode(cause) => ErrorView::Decode(cause@),
            Error::Handler(cause) => ErrorView::Handler(cause@),
            Error::Disconnected(payload) => ErrorView::Disconnected(payload_view(payload)),
            Error::NotConnected => ErrorView::NotConnected,
        }
    }
}

/// The outcome of a step that yields nothing but success or an error, as
/// plain values.
pub open spec fn result_view(result: Result<(), Error>) -> Result<(), ErrorView> {
    match result {
        Ok(()) => Ok(()),
        Err(error) => Err(error@),
    }
}

} // verus!
