//! A peer-to-peer encrypted text chat endpoint: connection negotiation,
//! a Noise handshake (optionally keyed by a password), and the per-message
//! encrypt / decrypt / rekey cycle of the transport pump.
//!
//! Everything that decides lives here and is verified; the I/O (sockets,
//! the SOCKS5 dial, the terminal) is performed by the caller, which feeds
//! the results back in as plain values.
pub mod message;
pub mod negotiate;
pub mod kdf;
pub mod noise;
pub mod transport;
pub mod handshake;
