//! QUIC connection and stream lifecycle: error classification at the
//! transport boundary, certificate and key material reading, the
//! dispatcher's per-connection state machine, and stream read/close
//! semantics.

pub mod common;
pub mod error;
pub mod handlers;
pub mod stream;
