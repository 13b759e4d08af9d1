//! The streaming client.
//!
//! A [`WebSockets`] owns the handler and the configuration, and knows whether
//! a connection is held and of which shape. It performs no I/O: whoever
//! drives it opens, reads and closes the socket, and tells the client what
//! came of it.

use crate::address::{
    combined_address, combined_target, endpoint_address, endpoint_target, fault_of, Target,
    TargetView, UrlFault,
};
use crate::config::{Config, ConfigView, DEFAULT_WS_ENDPOINT};
use crate::connection::{
    action_view, advanced, attempt_view, awaiting, first_action, outcome_view, Attempt,
    AttemptView, ConnectAction, ConnectActionView, WebSocketConnection, NO_TUNNEL_TARGET,
};
use crate::errors::{result_view, Error, ErrorView};
use crate::event_loop::{decoded_view, delivery, next_step, verdict_of, LoopStep};
use std::marker::PhantomData;
use vstd::prelude::*;

verus! {

/// A client of the streaming endpoint that hands every event of type `WE` to
/// its handler.
pub struct WebSockets<WE, H> {
    socket: Option<WebSocketConnection>,
    attempt: Option<Attempt>,
    handler: H,
    conf: Config,
    event: PhantomData<WE>,
}

/// What a call that begins an attempt towards `target` gives: the first
/// action, with the attempt then awaiting its report; or, where a tunnel is
/// asked for and the target has no host or port, a proxy failure and no
/// attempt.
pub open spec fn begun(
    reply: Result<ConnectAction, Error>,
    attempt: Option<AttemptView>,
    proxy: Option<Seq<char>>,
    target: TargetView,
) -> bool {
    match first_action(proxy, target) {
        Some(action) => {
            &&& reply matches Ok(asked)
            &&& asked@ == action
            &&& attempt == Some(awaiting(action, target))
        },
        None => {
            &&& reply matches Err(error)
            &&& error@ == ErrorView::ProxyConnect(NO_TUNNEL_TARGET@)
            &&& attempt is None
        },
    }
}

/// What a call that builds an address and begins an attempt gives: where
/// there is no address, the URL error of that kind and no attempt; else what
/// [`begun`] says.
pub open spec fn connecting(
    reply: Result<ConnectAction, Error>,
    attempt: Option<AttemptView>,
    proxy: Option<Seq<char>>,
    wanted: Result<TargetView, UrlFault>,
) -> bool {
    match wanted {
        Err(fault) => {
            &&& reply matches Err(Error::UrlParse(e))
            &&& fault_of(e) == fault
            &&& attempt is None
        },
        Ok(target) => begun(reply, attempt, proxy, target),
    }
}

/// The answer to a report, as plain values.
pub open spec fn reply_view(reply: Result<Option<ConnectAction>, Error>) -> Result<
    Option<ConnectActionView>,
    ErrorView,
> {
    match reply {
        Ok(action) => Ok(action_view(action)),
        Err(error) => Err(error@),
    }
}

/// What `disconnect` answers in a state: the connection that is to be closed,
/// or `NotConnected` where none is held.
pub open spec fn released(socket: Option<WebSocketConnection>) -> Result<
    WebSocketConnection,
    ErrorView,
> {
    match socket {
        Some(connection) => Ok(connection),
        None => Err(ErrorView::NotConnected),
    }
}

/// The answer of `disconnect`, as plain values.
pub open spec fn release_view(reply: Result<WebSocketConnection, Error>) -> Result<
    WebSocketConnection,
    ErrorView,
> {
    match reply {
        Ok(connection) => Ok(connection),
        Err(error) => Err(error@),
    }
}

impl<WE, H: FnMut(WE) -> Result<(), Error>> WebSockets<WE, H> {
    /// The connection that is held, if any.
    pub closed spec fn connection(&self) -> Option<WebSocketConnection> {
        self.socket
    }

    /// The attempt to connect that is under way, if any.
    pub closed spec fn attempt(&self) -> Option<AttemptView> {
        attempt_view(self.attempt)
    }

    /// The configuration.
    pub closed spec fn config(&self) -> ConfigView {
        self.conf@
    }

    /// The handler.
    pub closed spec fn handler(&self) -> H {
        self.handler
    }

    /// Nothing but the connection and the attempt differs between the two.
    pub open spec fn same_setup(&self, other: &Self) -> bool {
        &&& self.config() == other.config()
        &&& self.handler() == other.handler()
    }

    /// A client with the default configuration, not connected.
    pub fn new(handler: H) -> (client: Self)
        ensures
            client.connection() is None,
            client.attempt() is None,
            client.config() == (ConfigView { ws_endpoint: DEFAULT_WS_ENDPOINT@, proxy: None }),
            client.handler() == handler,
    {
        Self::new_with_options(handler, Config::default())
    }

    /// A client with the given configuration, not connected.
    pub fn new_with_options(handler: H, conf: Config) -> (client: Self)
        ensures
            client.connection() is None,
            client.attempt() is None,
            client.config() == conf@,
            client.handler() == handler,
    {
        WebSockets { socket: None, attempt: None, handler, conf, event: PhantomData }
    }

    /// Begins to connect to the multi-stream endpoint, subscribed to the
    /// given topics in the order given. An earlier attempt that is still
    /// under way is dropped.
    ///
    /// Gives the first thing to do, or the error that stands in the way. The
    /// connection that is held, if any, stays as it is.
    pub fn connect_multiple(&mut self, endpoints: Vec<String>) -> (reply: Result<
        ConnectAction,
        Error,
    >)
        ensures
            connecting(
                reply,
                final(self).attempt(),
                old(self).config().proxy,
                combined_target(old(self).config().ws_endpoint, endpoints.deep_view()),
            ),
            final(self).connection() == old(self).connection(),
            final(self).same_setup(old(self)),
    {
        self.attempt = None;
        match combined_address(self.conf.ws_endpoint.as_str(), endpoints) {
            Ok(target) => self.handle_connect(target),
            Err(error) => Err(error),
        }
    }

    /// Begins to connect to one named endpoint. An earlier attempt that is
    /// still under way is dropped.
    ///
    /// Gives the first thing to do, or the error that stands in the way. The
    /// connection that is held, if any, stays as it is.
    pub fn connect(&mut self, endpoint: &str) -> (reply: Result<ConnectAction, Error>)
        ensures
            connecting(
                reply,
                final(self).attempt(),
                old(self).config().proxy,
                endpoint_target(old(self).config().ws_endpoint, endpoint@),
            ),
            final(self).connection() == old(self).connection(),
            final(self).same_setup(old(self)),
    {
        self.attempt = None;
        match endpoint_address(self.conf.ws_endpoint.as_str(), endpoint) {
            Ok(target) => self.handle_connect(target),
            Err(error) => Err(error),
        }
    }

    /// Begins to connect to `target`: through a tunnel where a proxy is
    /// configured, directly where none is. An earlier attempt that is still
    /// under way is dropped.
    pub fn handle_connect(&mut self, target: Target) -> (reply: Result<ConnectAction, Error>)
        ensures
            begun(reply, final(self).attempt(), old(self).config().proxy, target@),
            final(self).connection() == old(self).connection(),
            final(self).same_setup(old(self)),
    {
        match &self.conf.proxy {
            None => {
                self.attempt = Some(Attempt::Handshake { over: WebSocketConnection::Direct });
                Ok(ConnectAction::Handshake { url: target.url, over: WebSocketConnection::Direct })
            },
            Some(address) => {
                let proxy = address.clone();
                match (target.host, target.port) {
                    (Some(host), Some(port)) => {
                        self.attempt = Some(Attempt::Tunnel { url: target.url });
                        Ok(ConnectAction::OpenTunnel { proxy, host, port })
                    },
                    _ => {
                        self.attempt = None;
                        Err(Error::ProxyConnect(String::from_str(NO_TUNNEL_TARGET)))
                    },
                }
            },
        }
    }

    /// Takes the report on the action that was asked for last.
    ///
    /// After the tunnel, asks for the handshake over it. After the
    /// handshake, holds the connection and asks for nothing more. A failure
    /// ends the attempt with a proxy or a handshake error that carries the
    /// cause. Without an attempt under way the report is answered with
    /// `NotConnected`.
    pub fn advance_connect(&mut self, outcome: Result<(), String>) -> (reply: Result<
        Option<ConnectAction>,
        Error,
    >)
        ensures
            reply_view(reply) == advanced(
                old(self).attempt(),
                old(self).connection(),
                outcome_view(outcome),
            ).reply,
            final(self).attempt() == advanced(
                old(self).attempt(),
                old(self).connection(),
                outcome_view(outcome),
            ).attempt,
            final(self).connection() == advanced(
                old(self).attempt(),
                old(self).connection(),
                outcome_view(outcome),
            ).socket,
            final(self).same_setup(old(self)),
    {
        match self.attempt.take() {
            None => Err(Error::NotConnected),
            Some(Attempt::Tunnel { url }) => match outcome {
                Ok(()) => {
                    self.attempt = Some(Attempt::Handshake { over: WebSocketConnection::Proxies });
                    Ok(Some(ConnectAction::Handshake { url, over: WebSocketConnection::Proxies }))
                },
                Err(cause) => Err(Error::ProxyConnect(cause)),
            },
            Some(Attempt::Handshake { over }) => match outcome {
                Ok(()) => {
                    self.socket = Some(over);
                    Ok(None)
                },
                Err(cause) => Err(Error::Handshake(cause)),
            },
        }
    }

    /// What one call of `disconnect` does: `reply` is its answer in the
    /// state `self`, and `after` the state it leaves.
    pub open spec fn disconnects(&self, after: &Self, reply: Result<WebSocketConnection, Error>) -> bool {
        &&& release_view(reply) == released(self.connection())
        &&& after.connection() is None
        &&& after.attempt() == self.attempt()
        &&& after.same_setup(self)
    }

    /// Lets go of the connection: gives the connection that is now to be
    /// closed, or `NotConnected` where none is held. Afterwards none is held.
    pub fn disconnect(&mut self) -> (reply: Result<WebSocketConnection, Error>)
        ensures
            old(self).disconnects(final(self), reply),
    {
        match self.socket.take() {
            Some(connection) => Ok(connection),
            None => Err(Error::NotConnected),
        }
    }

    /// The connection that is held, if any.
    pub fn socket(&self) -> (held: Option<&WebSocketConnection>)
        ensures
            held matches Some(connection) ==> self.connection() == Some(*connection),
            held is None ==> self.connection() is None,
    {
        self.socket.as_ref()
    }

    /// Whether an attempt to connect is under way.
    pub fn is_connecting(&self) -> (under_way: bool)
        ensures
            under_way == self.attempt() is Some,
    {
        self.attempt.is_some()
    }

    /// Begins a turn of the read loop, given the cancellation flag as it is
    /// now: see [`next_step`].
    pub fn event_loop(&self, running: bool) -> (step: LoopStep)
        ensures
            step == next_step(running, self.connection() is Some),
    {
        if !running {
            LoopStep::Finish
        } else if self.socket.is_none() {
            LoopStep::Idle
        } else {
            LoopStep::Receive
        }
    }

    /// Takes what decoding a text frame gave. A text that did not decode
    /// gives a decode error with the cause; an event goes to the handler,
    /// once, and what the handler says is the result.
    pub fn deliver(&mut self, decoded: Result<WE, String>) -> (result: Result<(), Error>)
        requires
            decoded matches Ok(event) ==> call_requires(old(self).handler(), (event,)),
        ensures
            decoded matches Ok(event) ==> call_ensures(old(self).handler(), (event,), result),
            exists|verdict: Result<(), Error>|
                verdict_of(old(self).handler(), decoded, verdict) && result_view(result)
                    == delivery(decoded_view(decoded), #[trigger] result_view(verdict)),
            final(self).connection() == old(self).connection(),
            final(self).attempt() == old(self).attempt(),
            final(self).same_setup(old(self)),
    {
        match decoded {
            Err(cause) => {
                let result = Err(Error::Decode(cause));
                assert(verdict_of(self.handler, decoded, result));
                assert(result_view(result) == delivery(decoded_view(decoded), result_view(result)));
                result
            },
            Ok(event) => {
                let result = (self.handler)(event);
                assert(verdict_of(old(self).handler(), decoded, result));
                assert(result_view(result) == delivery(decoded_view(decoded), result_view(result)));
                result
            },
        }
    }
}

/// Whatever the first `disconnect` found, a second one right after it finds
/// no connection: it answers `NotConnected` and leaves none.
pub proof fn law_second_disconnect_fails<WE, H: FnMut(WE) -> Result<(), Error>>(
    before: WebSockets<WE, H>,
    between: WebSockets<WE, H>,
    after: WebSockets<WE, H>,
    first: Result<WebSocketConnection, Error>,
    second: Result<WebSocketConnection, Error>,
)
    requires
        before.disconnects(&between, first),
        between.disconnects(&after, second),
    ensures
        before.connection() is None ==> release_view(first) == Err::<
            WebSocketConnection,
            ErrorView,
        >(ErrorView::NotConnected),
        before.connection() matches Some(connection) ==> first == Ok::<
            WebSocketConnection,
            Error,
        >(connection),
        release_view(second) == Err::<WebSocketConnection, ErrorView>(ErrorView::NotConnected),
        after.connection() is None,
{
}

/// Takes the report on closing the connection that `disconnect` released: a
/// failure is passed on as a transport error with its cause.
pub fn close_report(outcome: Result<(), String>) -> (result: Result<(), Error>)
    ensures
        result_view(result) == match outcome {
            Ok(()) => Ok::<(), ErrorView>(()),
            Err(cause) => Err::<(), ErrorView>(ErrorView::Transport(cause@)),
        },
{
    match outcome {
        Ok(()) => Ok(()),
        Err(cause) => Err(Error::Transport(cause)),
    }
}

} // verus!
