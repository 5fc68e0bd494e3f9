//! A secure TCP tunnel ("gender changer"): a TCP service on a private network
//! is reached through a public relay point, with trust in each direction
//! established by pinning exactly one expected certificate — no certificate
//! authority is consulted.
//!
//! This crate is the tunnel engine: the certificate-pinning trust verifier,
//! the dual-listener session-pairing broker on the relay side, the
//! bidirectional byte-relay state machine, and the redialing loop that
//! re-establishes tunneled connections.  The surrounding process (argument
//! parsing, socket and TLS I/O, certificate generation) drives these machines
//! and is kept outside the verified core: it hands in plain values (accepted
//! connections, bytes read, handshake results) and performs the actions the
//! machines decide on.

pub mod broker;
pub mod identity;
pub mod pin;
pub mod redial;
pub mod relay;
pub mod session;
