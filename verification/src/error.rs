//! The error taxonomy of the crate.
//!
//! Only connection establishment can fail: a refused or unreachable peer, a
//! rejected timeout configuration, or a session run before its configuration
//! was complete.  Everything that happens inside a running session (read
//! timeouts, decode failures, write failures) is absorbed as normal control
//! flow and never surfaces here.

use vstd::prelude::*;

verus! {

/// The errors surfaced by connection establishment and session start.
#[derive(Clone, Copy, Debug, PartialEq, Eq, Structural)]
pub enum CtfTcpHandlerError {
    /// The TCP handshake with the remote peer failed.
    ConnectionError,
    /// The configuration was rejected: either the platform refused the
    /// requested read timeout, or a session was run with its target host,
    /// port or responder still unset.
    ConfigurationError,
    /// A read failed in a way that could not be absorbed.
    ReadError,
}

impl CtfTcpHandlerError {
    /// A short human-readable description of the error.
    pub fn message(&self) -> (r: &'static str)
        ensures
            *self is ConnectionError ==> r@ == "Unable to connect to remote"@,
            *self is ConfigurationError ==> r@ == "Unable to set timeout"@,
            *self is ReadError ==> r@ == "Read error"@,
    {
        match self {
            CtfTcpHandlerError::ConnectionError => "Unable to connect to remote",
            CtfTcpHandlerError::ConfigurationError => "Unable to set timeout",
            CtfTcpHandlerError::ReadError => "Read error",
        }
    }
}

} // verus!
