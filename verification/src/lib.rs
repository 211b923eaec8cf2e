//! Noise protocol handshakes and transport, and caBLE (hybrid transport) discovery, as
//! used for WebAuthn.
//!
//! The pieces that need NSS (AES-GCM, AES-CBC, P-256 and randomness) are performed by the
//! caller: the library prepares each request, and takes the result back.

pub mod error;
pub mod base10;
pub mod bytes;
pub mod le;
pub mod handshake_type;
pub mod hash;
pub mod cipher;
pub mod ec;
pub mod cipher_state;
pub mod channel;
pub mod symmetric_state;
pub mod handshake;
pub mod discovery;
pub mod cable;
pub mod cable_discovery;

pub use crate::error::{Error, Result};
