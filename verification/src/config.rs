//! Where the client connects to.

use vstd::prelude::*;

verus! {

/// Base address of the public streaming endpoint.
pub const DEFAULT_WS_ENDPOINT: &'static str = "wss://stream.binance.com:9443";

/// Addresses that a client is built with.
#[derive(Debug, PartialEq, Eq)]
pub struct Config {
    /// Base URL of the streaming endpoint.
    pub ws_endpoint: String,
    /// Address (`host:port`) of a SOCKS5 proxy to tunnel through. Without
    /// one, the client connects directly.
    pub proxy: Option<String>,
}

/// A configuration as plain values.
pub struct ConfigView {
    pub ws_endpoint: Seq<char>,
    pub proxy: Option<Seq<char>>,
}

impl View for Config {
    type V = ConfigView;

    open spec fn view(&self) -> ConfigView {
        ConfigView {
            ws_endpoint: self.ws_endpoint@,
            proxy: match self.proxy {
                Some(address) => Some(address@),
                None => None,
            },
        }
    }
}

impl Default for Config {
    /// The public endpoint, reached directly.
    fn default() -> (conf: Config)
        ensures
            conf@ == (ConfigView { ws_endpoint: DEFAULT_WS_ENDPOINT@, proxy: None }),
    {
        Config { ws_endpoint: String::from_str(DEFAULT_WS_ENDPOINT), proxy: None }
    }
}

} // verus!
