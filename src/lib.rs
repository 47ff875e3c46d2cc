//! A SOCKS5 protocol engine: wire codec, method negotiation, password
//! sub-negotiation, request parsing, reply encoding, the UDP envelope and the
//! per-session decisions, each stated and proved over a byte-level model.

pub mod codec;
pub mod config;
pub mod handshake;
pub mod reply;
pub mod request;
pub mod session;
pub mod udp;
