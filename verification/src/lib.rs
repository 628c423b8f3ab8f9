//! Remote-control session server core.
//!
//! A playback application on the local network is driven by remote clients
//! over WebSocket and HTTP.  This crate holds the verified heart of that
//! server: the shared status record and its store, the command dispatcher,
//! the JSON wire codec, the per-connection session state machine, and the
//! small helpers around server start-up and asset storage.  The network
//! plumbing itself (sockets, the HTTP framework, task spawning) lives in the
//! embedding application, which calls into these functions with plain values.

pub mod status;
pub mod text;
pub mod json;
pub mod command;
pub mod codec;
pub mod parse;
pub mod message;
pub mod session;
pub mod http;
pub mod clock;
pub mod bootstrap;
pub mod laws;
pub mod assets;
