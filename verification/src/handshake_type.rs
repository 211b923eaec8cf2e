//! The Noise handshake patterns in use.

use vstd::prelude::*;

verus! {

/// The Noise handshake patterns that caBLE uses.
#[derive(Debug, Clone, Copy, PartialEq, Eq, Structural)]
pub enum HandshakeType {
    /// The initiator's static key is known to the responder (QR-initiated transactions).
    KNpsk0,
    /// The responder's static key is known to the initiator (state-assisted transactions).
    NKpsk0,
}

} // verus!
