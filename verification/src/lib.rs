//! Core of a terminal-session tunnel.
//!
//! A server accepts multiplexed transport streams, pairs each with a freshly
//! allocated pseudo-terminal (PTY) running a login shell, and relays bytes in
//! both directions until the shell exits or the stream closes.  A client puts
//! the local terminal into raw mode, opens one stream, and relays it against
//! the local terminal.
//!
//! The concurrency and I/O live outside this library.  What is verified here
//! is everything the tunnel *decides*: how a read outcome is classified, how a
//! session moves through its lifecycle (the child process is reaped exactly
//! once on every path), how sessions and connections stay isolated from one
//! another, how the client sequences its relay, and how the terminal-mode
//! guard restores the saved attribute set exactly once.  The driver feeds
//! events into these state machines and performs the actions they return.

pub mod client;
pub mod errors;
pub mod relay;
pub mod server;
pub mod session;
pub mod term;

pub use errors::TunnelError;
