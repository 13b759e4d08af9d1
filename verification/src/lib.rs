//! A client for market-data streams over WebSocket, without the I/O.
//!
//! The library names the subscription topics, builds the address of an
//! endpoint, decides how a connection is established (directly or through a
//! SOCKS5 tunnel), and decides, frame by frame, what the read loop does. The
//! sockets themselves belong to whoever drives the client.

pub mod address;
pub mod config;
pub mod connection;
pub mod errors;
pub mod event_loop;
pub mod messages;
pub mod topics;
pub mod websockets;
