//! caBLE transport framing for CTAP 2 messages exchanged with an authenticator.
//!
//! Each message on the tunnel starts with a type byte: 0 asks to shut down, 1 carries a
//! CTAP 2 CBOR message, and 2 carries linking information.

use vstd::prelude::*;

verus! {

/// The message type of a CTAP 2 CBOR message.
pub const MSG_TYPE_CTAP: u8 = 1;

/// A message received from an authenticator over the tunnel.
#[derive(Debug, PartialEq, Eq)]
pub enum CableMessage {
    /// An empty message, which is a device error.
    Empty,
    /// The authenticator shut the tunnel down (type 0).
    Shutdown,
    /// A CTAP 2 response (type 1), with its CBOR payload.
    Ctap(Vec<u8>),
    /// Linking information (type 2), which is ignored.
    LinkingInfo,
    /// A message of another type.
    Unexpected(u8),
}

/// Frames a CTAP 2 request in its wire format for the tunnel: the type byte 1, then the
/// request.
pub fn frame_request(req_cbor: Vec<u8>) -> (r: Vec<u8>)
    ensures
        r@ == seq![MSG_TYPE_CTAP] + req_cbor@,
{
    let ghost original = req_cbor@;
    let mut req_cbor = req_cbor;
    req_cbor.insert(0, MSG_TYPE_CTAP);
    assert(req_cbor@ =~= seq![MSG_TYPE_CTAP] + original);
    req_cbor
}

/// Classifies a message received from the authenticator by its type byte.
pub fn classify_response(resp_cbor: &[u8]) -> (r: CableMessage)
    ensures
        resp_cbor@.len() == 0 ==> r == CableMessage::Empty,
        resp_cbor@.len() > 0 && resp_cbor@[0] == 0 ==> r == CableMessage::Shutdown,
        resp_cbor@.len() > 0 && resp_cbor@[0] == 1 ==> (r matches CableMessage::Ctap(p) && p@
            == resp_cbor@.subrange(1, resp_cbor@.len() as int)),
        resp_cbor@.len() > 0 && resp_cbor@[0] == 2 ==> r == CableMessage::LinkingInfo,
        resp_cbor@.len() > 0 && resp_cbor@[0] > 2 ==> r == CableMessage::Unexpected(resp_cbor@[0]),
{
    if resp_cbor.len() == 0 {
        return CableMessage::Empty;
    }
    let msg_type = resp_cbor[0];
    if msg_type == 0 {
        // Shutdown
        CableMessage::Shutdown
    } else if msg_type == 1 {
        // CBOR
        CableMessage::Ctap(crate::bytes::to_vec(&resp_cbor[1..resp_cbor.len()]))
    } else if msg_type == 2 {
        // Linking info, ignore
        CableMessage::LinkingInfo
    } else {
        CableMessage::Unexpected(msg_type)
    }
}

} // verus!
