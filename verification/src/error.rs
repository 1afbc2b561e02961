//! The error taxonomy: one closed set of failure kinds returned by every
//! layer of the library. Engine-level failures are converted exactly once,
//! at the boundary, into the most specific applicable kind.

use vstd::prelude::*;

verus! {

/// A failure, tagged with its kind and carrying a human-readable detail.
#[derive(Debug, Clone, PartialEq, Eq)]
pub enum NetworkError {
    /// An I/O failure below the transport.
    IOError(String),
    /// An unrecoverable failure, such as an exhausted configuration retry
    /// budget.
    FatalError(String),
    /// A TLS negotiation failure reported by the TLS engine.
    TLSError(String),
    /// A failure on an established connection.
    ConnectionError(String),
    /// A failure while initiating a connection.
    ConnectError(String),
    /// The peer closed the connection; the detail names the peer.
    ConnectionClosedError(String),
    /// A malformed request.
    RequestError(String),
    /// A failure while reading from a receive stream.
    RecvError(String),
    /// An internal or configuration failure.
    InternalError(String),
    /// A failure that fits no other kind.
    Unknown(String),
    /// A failure while writing to a send stream.
    WriteError(String),
}

impl NetworkError {
    /// The detail string carried by this error, as a mathematical sequence.
    pub open spec fn detail_view(self) -> Seq<char> {
        match self {
            NetworkError::IOError(d) => d@,
            NetworkError::FatalError(d) => d@,
            NetworkError::TLSError(d) => d@,
            NetworkError::ConnectionError(d) => d@,
            NetworkError::ConnectError(d) => d@,
            NetworkError::ConnectionClosedError(d) => d@,
            NetworkError::RequestError(d) => d@,
            NetworkError::RecvError(d) => d@,
            NetworkError::InternalError(d) => d@,
            NetworkError::Unknown(d) => d@,
            NetworkError::WriteError(d) => d@,
        }
    }

    /// The detail string carried by this error.
    pub fn detail(&self) -> (r: &String)
        ensures
            r@ == self.detail_view(),
    {
        match self {
            NetworkError::IOError(d) => d,
            NetworkError::FatalError(d) => d,
            NetworkError::TLSError(d) => d,
            NetworkError::ConnectionError(d) => d,
            NetworkError::ConnectError(d) => d,
            NetworkError::ConnectionClosedError(d) => d,
            NetworkError::RequestError(d) => d,
            NetworkError::RecvError(d) => d,
            NetworkError::InternalError(d) => d,
            NetworkError::Unknown(d) => d,
            NetworkError::WriteError(d) => d,
        }
    }

    /// Whether this error reports a connection closed by the peer.
    pub fn is_connection_closed(&self) -> (r: bool)
        ensures
            r == (self is ConnectionClosedError),
    {
        match self {
            NetworkError::ConnectionClosedError(_) => true,
            _ => false,
        }
    }
}

} // verus!
