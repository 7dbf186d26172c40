//! Error kinds of the tunnel and how far each one reaches.
//!
//! Failure policy: listener faults end the whole server; a connection closing
//! ends only that connection's dispatch loop; resource or relay faults inside
//! a session end only that session; terminal-mode and stream-open faults end
//! the one client invocation.  No error is retried.

use vstd::prelude::*;

verus! {

/// Every failure the tunnel can report.
#[derive(Clone, Copy, Debug, PartialEq, Eq, Structural)]
pub enum TunnelError {
    /// The listener could not bind: address in use or invalid TLS material.
    Bind,
    /// An unrecoverable fault of the listener itself.
    Transport,
    /// The peer closed the connection; ends that connection's dispatch loop.
    ConnectionClosed,
    /// The OS could not allocate a PTY pair for one session.
    PtyAllocation,
    /// The shell command could not be spawned for one session.
    Spawn,
    /// A read or write of one session's relay failed.
    Io,
    /// The local descriptor is not a terminal or its attributes were refused.
    Termios,
    /// The peer or the transport rejected opening the client's stream.
    StreamOpen,
}

/// How much of the program one error tears down.
#[derive(Clone, Copy, Debug, PartialEq, Eq, Structural)]
pub enum FailureScope {
    /// The whole server process stops.
    Server,
    /// One connection's dispatch loop ends; the process keeps accepting.
    Connection,
    /// One session is torn down; sibling sessions are unaffected.
    Session,
    /// The one foreground client invocation ends.
    Client,
}

/// The scope an error tears down, as a spec-level table.
pub open spec fn scope_of(e: TunnelError) -> FailureScope {
    match e {
        TunnelError::Bind => FailureScope::Server,
        TunnelError::Transport => FailureScope::Server,
        TunnelError::ConnectionClosed => FailureScope::Connection,
        TunnelError::PtyAllocation => FailureScope::Session,
        TunnelError::Spawn => FailureScope::Session,
        TunnelError::Io => FailureScope::Session,
        TunnelError::Termios => FailureScope::Client,
        TunnelError::StreamOpen => FailureScope::Client,
    }
}

impl TunnelError {
    /// How far this error reaches when it is raised.
    pub fn scope(&self) -> (s: FailureScope)
        ensures
            s == scope_of(*self),
    {
        match self {
            TunnelError::Bind => FailureScope::Server,
            TunnelError::Transport => FailureScope::Server,
            TunnelError::ConnectionClosed => FailureScope::Connection,
            TunnelError::PtyAllocation => FailureScope::Session,
            TunnelError::Spawn => FailureScope::Session,
            TunnelError::Io => FailureScope::Session,
            TunnelError::Termios => FailureScope::Client,
            TunnelError::StreamOpen => FailureScope::Client,
        }
    }

    /// A short description for logs and for the client's stderr.
    pub fn describe(&self) -> (s: &'static str) {
        match self {
            TunnelError::Bind => "cannot bind listener: address in use or bad TLS material",
            TunnelError::Transport => "unrecoverable transport fault on the listener",
            TunnelError::ConnectionClosed => "connection closed by peer",
            TunnelError::PtyAllocation => "cannot allocate a PTY pair",
            TunnelError::Spawn => "cannot spawn the shell command",
            TunnelError::Io => "relay I/O failure",
            TunnelError::Termios => "descriptor is not a terminal or attributes were refused",
            TunnelError::StreamOpen => "peer rejected opening a stream",
        }
    }
}

} // verus!
