//! Randomized TLS session setup and QUIC connection/stream dispatch.
//!
//! The library builds TLS client configurations whose cipher suites,
//! key-exchange group and protocol-version prefix are sampled at random for
//! each session, and models the connection/stream lifecycle of a QUIC
//! endpoint: stream-accept classification, bounded idle waits after a close,
//! byte-exact stream reads, and a closed error taxonomy shared by every
//! layer.

pub mod client;
pub mod error;
pub mod quic;
pub mod utils;
mod rng;
