//! A read-only mirroring gateway for an IRC-style server-to-server link.
//!
//! The library holds the verified core: the link handshake lines, the
//! relay-loop decisions (liveness-probe detection and replies), the
//! configuration grammar and identity rules, and peer authentication by
//! certificate fingerprint. Transport setup and the blocking I/O loops
//! live outside the library and call into it with plain values.

pub mod config;
pub mod fingerprint;
pub mod handshake;
pub mod listener;
pub mod relay;
pub mod text;
pub mod uplink;
