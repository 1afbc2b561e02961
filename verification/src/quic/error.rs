//! The boundary between the transport engine's failure types and the
//! library's error taxonomy. Each engine error is converted exactly once,
//! here, into the most specific applicable kind.

use crate::error::NetworkError;
use vstd::prelude::*;

verus! {

#[verifier::external_type_specification]
#[verifier::external_body]
pub struct ExConnectionError(quinn::ConnectionError);

#[verifier::external_type_specification]
#[verifier::external_body]
pub struct ExReadToEndError(quinn::ReadToEndError);

#[verifier::external_type_specification]
#[verifier::external_body]
pub struct ExWriteError(quinn::WriteError);

#[verifier::external_type_specification]
#[verifier::external_body]
pub struct ExConnectError(quinn::ConnectError);

/// The variants of the transport engine's connection-failure type, as
/// plain tags the verified classification logic can inspect.
#[derive(Clone, Copy, Debug, PartialEq, Eq, Structural)]
pub enum ConnectionErrorKind {
    /// The peer implements no supported protocol version.
    VersionMismatch,
    /// The peer violated the transport protocol.
    TransportError,
    /// The peer's transport stack aborted the connection.
    ConnectionClosed,
    /// The peer's application closed the connection.
    ApplicationClosed,
    /// The peer reset the connection.
    Reset,
    /// The connection sat idle past the negotiated timeout.
    TimedOut,
    /// The local application closed the connection.
    LocallyClosed,
}

/// Relies on quinn's `ConnectionError`: one tag per variant, paired with
/// the error's display text.
#[verifier::external_body]
pub(crate) fn connection_error_kind(e: &quinn::ConnectionError) -> (ConnectionErrorKind, String) {
    let kind = match e {
        quinn::ConnectionError::VersionMismatch => ConnectionErrorKind::VersionMismatch,
        quinn::ConnectionError::TransportError(_) => ConnectionErrorKind::TransportError,
        quinn::ConnectionError::ConnectionClosed(_) => ConnectionErrorKind::ConnectionClosed,
        quinn::ConnectionError::ApplicationClosed(_) => ConnectionErrorKind::ApplicationClosed,
        quinn::ConnectionError::Reset => ConnectionErrorKind::Reset,
        quinn::ConnectionError::TimedOut => ConnectionErrorKind::TimedOut,
        quinn::ConnectionError::LocallyClosed => ConnectionErrorKind::LocallyClosed,
    };
    (kind, format!("{}", e))
}

/// Relies on quinn's `ReadToEndError` display text.
#[verifier::external_body]
fn read_to_end_error_detail(e: &quinn::ReadToEndError) -> String {
    format!("{}", e)
}

/// Relies on quinn's `WriteError` display text.
#[verifier::external_body]
fn write_error_detail(e: &quinn::WriteError) -> String {
    format!("{}", e)
}

/// Relies on quinn's `ConnectError` display text.
#[verifier::external_body]
fn connect_error_detail(e: &quinn::ConnectError) -> String {
    format!("{}", e)
}

impl NetworkError {
    /// Convert a failure of an established connection. Every variant maps
    /// to the established-connection kind; a stream-accept failure caused
    /// by a peer-initiated close is classified separately, by
    /// [`classify_stream_accept_error`].
    pub fn from_connection_error(e: &quinn::ConnectionError) -> (r: NetworkError)
        ensures
            r is ConnectionError,
    {
        let (_, detail) = connection_error_kind(e);
        NetworkError::ConnectionError(detail)
    }

    /// Convert a failure while draining a receive stream.
    pub fn from_read_to_end_error(e: &quinn::ReadToEndError) -> (r: NetworkError)
        ensures
            r is RecvError,
    {
        NetworkError::RecvError(read_to_end_error_detail(e))
    }

    /// Convert a failure while writing to a send stream.
    pub fn from_write_error(e: &quinn::WriteError) -> (r: NetworkError)
        ensures
            r is WriteError,
    {
        NetworkError::WriteError(write_error_detail(e))
    }

    /// Convert a failure while initiating a connection.
    pub fn from_connect_error(e: &quinn::ConnectError) -> (r: NetworkError)
        ensures
            r is ConnectError,
    {
        NetworkError::ConnectError(connect_error_detail(e))
    }
}

/// Classify a stream-accept failure. A close initiated by the peer is
/// benign and surfaces as the connection-closed kind, carrying the peer's
/// address; every other failure keeps the established-connection kind and
/// its engine detail.
pub fn classify_stream_accept_error(kind: ConnectionErrorKind, peer: &str, detail: String) -> (r:
    NetworkError)
    ensures
        kind is ApplicationClosed ==> (r matches NetworkError::ConnectionClosedError(d)
            && d@ == peer@),
        !(kind is ApplicationClosed) ==> (r matches NetworkError::ConnectionError(d)
            && d@ == detail@),
{
    if kind == ConnectionErrorKind::ApplicationClosed {
        NetworkError::ConnectionClosedError(String::from_str(peer))
    } else {
        NetworkError::ConnectionError(detail)
    }
}

/// Classify a stream-accept failure straight from the engine's error:
/// extracts the variant tag and hands it to [`classify_stream_accept_error`].
pub fn classify_stream_accept_failure(e: &quinn::ConnectionError, peer: &str) -> (r: NetworkError)
    ensures
        r is ConnectionClosedError || r is ConnectionError,
{
    let (kind, detail) = connection_error_kind(e);
    classify_stream_accept_error(kind, peer, detail)
}

} // verus!
