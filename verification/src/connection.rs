//! How a connection is established: which steps are taken, and in which
//! order.
//!
//! The client does not open sockets itself. It says what is to be done next
//! (a [`ConnectAction`]), is told how that went, and keeps track of where the
//! attempt stands (an [`Attempt`]). A connection counts as open only once the
//! handshake has been reported as done.

use crate::address::TargetView;
use crate::errors::ErrorView;
use vstd::prelude::*;

verus! {

/// The two shapes of an open connection.
#[derive(Debug, Clone, Copy, PartialEq, Eq, Structural)]
pub enum WebSocketConnection {
    /// A socket that reaches the endpoint itself.
    Direct,
    /// A socket that reaches the endpoint through a SOCKS5 tunnel.
    Proxies,
}

/// Cause reported where a tunnel is asked for and the URL names no host or
/// no port to open it to.
pub const NO_TUNNEL_TARGET: &'static str = "the URL names no host and port to tunnel to";

/// What the transport is asked to do next.
#[derive(Debug, PartialEq, Eq)]
pub enum ConnectAction {
    /// Open a SOCKS5 tunnel through `proxy` to `host` and `port`.
    OpenTunnel { proxy: String, host: String, port: u16 },
    /// Perform the WebSocket handshake (with TLS where the scheme asks for
    /// it) against `url`: over a connection of its own for `Direct`, over the
    /// tunnel just opened for `Proxies`.
    Handshake { url: String, over: WebSocketConnection },
}

/// An action as plain values.
pub enum ConnectActionView {
    OpenTunnel { proxy: Seq<char>, host: Seq<char>, port: u16 },
    Handshake { url: Seq<char>, over: WebSocketConnection },
}

impl View for ConnectAction {
    type V = ConnectActionView;

    open spec fn view(&self) -> ConnectActionView {
        match *self {
            ConnectAction::OpenTunnel { proxy, host, port } => ConnectActionView::OpenTunnel {
                proxy: proxy@,
                host: host@,
                port,
            },
            ConnectAction::Handshake { url, over } => ConnectActionView::Handshake {
                url: url@,
                over,
            },
        }
    }
}

/// Where an attempt to connect stands: which report is awaited.
#[derive(Debug, PartialEq, Eq)]
pub enum Attempt {
    /// The tunnel was asked for; the handshake against `url` is to follow.
    Tunnel { url: String },
    /// The handshake was asked for.
    Handshake { over: WebSocketConnection },
}

/// An attempt as plain values.
pub enum AttemptView {
    Tunnel { url: Seq<char> },
    Handshake { over: WebSocketConnection },
}

impl View for Attempt {
    type V = AttemptView;

    open spec fn view(&self) -> AttemptView {
        match *self {
            Attempt::Tunnel { url } => AttemptView::Tunnel { url: url@ },
            Attempt::Handshake { over } => AttemptView::Handshake { over },
        }
    }
}

/// The attempt that is under way, if any, as plain values.
pub open spec fn attempt_view(attempt: Option<Attempt>) -> Option<AttemptView> {
    match attempt {
        Some(a) => Some(a@),
        None => None,
    }
}

/// The action that is asked for, if any, as plain values.
pub open spec fn action_view(action: Option<ConnectAction>) -> Option<ConnectActionView> {
    match action {
        Some(a) => Some(a@),
        None => None,
    }
}

/// The first step towards `target`. With a proxy it is the tunnel, to the
/// host and port of the target; there is none where the target lacks either.
/// Without a proxy it is the handshake itself.
pub open spec fn first_action(proxy: Option<Seq<char>>, target: TargetView) -> Option<
    ConnectActionView,
> {
    match proxy {
        None => Some(
            ConnectActionView::Handshake { url: target.url, over: WebSocketConnection::Direct },
        ),
        Some(address) => match (target.host, target.port) {
            (Some(host), Some(port)) => Some(
                ConnectActionView::OpenTunnel { proxy: address, host, port },
            ),
            _ => None,
        },
    }
}

/// The attempt that stands once `action` has been asked for on the way to
/// `target`.
pub open spec fn awaiting(action: ConnectActionView, target: TargetView) -> AttemptView {
    match action {
        ConnectActionView::OpenTunnel { .. } => AttemptView::Tunnel { url: target.url },
        ConnectActionView::Handshake { over, .. } => AttemptView::Handshake { over },
    }
}

/// The state of connecting, and what the client answered to the last report.
pub struct Progress {
    /// The attempt that is still under way.
    pub attempt: Option<AttemptView>,
    /// The connection that is held.
    pub socket: Option<WebSocketConnection>,
    /// The next action, `None` once the connection is open, or the error
    /// that ended the attempt.
    pub reply: Result<Option<ConnectActionView>, ErrorView>,
}

/// What a report does to an attempt.
///
/// After the tunnel, the handshake follows over it; after the handshake, the
/// connection is held. A failure ends the attempt, as a proxy failure where
/// the tunnel was awaited and as a handshake failure otherwise, and leaves the
/// connection that was held before. A report that no attempt awaits changes
/// nothing and is answered with `NotConnected`.
pub open spec fn advanced(
    attempt: Option<AttemptView>,
    socket: Option<WebSocketConnection>,
    outcome: Result<(), Seq<char>>,
) -> Progress {
    match attempt {
        None => Progress { attempt: None, socket, reply: Err(ErrorView::NotConnected) },
        Some(AttemptView::Tunnel { url }) => match outcome {
            Ok(()) => Progress {
                attempt: Some(AttemptView::Handshake { over: WebSocketConnection::Proxies }),
                socket,
                reply: Ok(
                    Some(
                        ConnectActionView::Handshake { url, over: WebSocketConnection::Proxies },
                    ),
                ),
            },
            Err(cause) => Progress {
                attempt: None,
                socket,
                reply: Err(ErrorView::ProxyConnect(cause)),
            },
        },
        Some(AttemptView::Handshake { over }) => match outcome {
            Ok(()) => Progress { attempt: None, socket: Some(over), reply: Ok(None) },
            Err(cause) => Progress { attempt: None, socket, reply: Err(ErrorView::Handshake(cause)) },
        },
    }
}

/// A report as plain values.
pub open spec fn outcome_view(outcome: Result<(), String>) -> Result<(), Seq<char>> {
    match outcome {
        Ok(()) => Ok(()),
        Err(cause) => Err(cause@),
    }
}

/// Without a proxy the handshake is asked for at once, directly, and its
/// success opens a direct connection. No tunnel is asked for on the way.
pub proof fn law_direct_without_proxy(target: TargetView, socket: Option<WebSocketConnection>)
    ensures
        first_action(None, target) == Some(
            ConnectActionView::Handshake { url: target.url, over: WebSocketConnection::Direct },
        ),
        advanced(Some(awaiting(first_action(None, target)->0, target)), socket, Ok(())) == (
        Progress { attempt: None, socket: Some(WebSocketConnection::Direct), reply: Ok(None) }),
{
}

/// With a proxy the tunnel is asked for first, to the host and port of the
/// target. The handshake is asked for only once the tunnel is reported to
/// stand, and then over the tunnel; its success opens a proxied connection.
/// Where the tunnel fails, no handshake is asked for: the attempt ends with a
/// proxy failure, and the connection held before stays.
pub proof fn law_tunnel_before_handshake(
    proxy: Seq<char>,
    target: TargetView,
    socket: Option<WebSocketConnection>,
    cause: Seq<char>,
)
    requires
        target.host is Some,
        target.port is Some,
    ensures
        first_action(Some(proxy), target) == Some(
            ConnectActionView::OpenTunnel {
                proxy,
                host: target.host->0,
                port: target.port->0,
            },
        ),
        advanced(
            Some(awaiting(first_action(Some(proxy), target)->0, target)),
            socket,
            Err(cause),
        ) == (Progress { attempt: None, socket, reply: Err(ErrorView::ProxyConnect(cause)) }),
        advanced(Some(awaiting(first_action(Some(proxy), target)->0, target)), socket, Ok(()))
            == (Progress {
            attempt: Some(AttemptView::Handshake { over: WebSocketConnection::Proxies }),
            socket,
            reply: Ok(
                Some(
                    ConnectActionView::Handshake {
                        url: target.url,
                        over: WebSocketConnection::Proxies,
                    },
                ),
            ),
        }),
        advanced(
            advanced(
                Some(awaiting(first_action(Some(proxy), target)->0, target)),
                socket,
                Ok(()),
            ).attempt,
            socket,
            Ok(()),
        ) == (Progress {
            attempt: None,
            socket: Some(WebSocketConnection::Proxies),
            reply: Ok(None),
        }),
{
}

/// A connection is opened by nothing but the report that a handshake went
/// well, and it has the shape that the handshake was asked for.
pub proof fn law_opened_by_handshake_only(
    attempt: Option<AttemptView>,
    socket: Option<WebSocketConnection>,
    outcome: Result<(), Seq<char>>,
)
    ensures
        advanced(attempt, socket, outcome).socket != socket ==> outcome is Ok && attempt
            == Some(AttemptView::Handshake { over: advanced(attempt, socket, outcome).socket->0 }),
{
}

} // verus!
