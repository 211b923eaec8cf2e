//! caBLE EIDs: the payload of an authenticator's BLE advertisement.

use crate::bytes::append;
use crate::discovery::cbor::cbor_encoded;
use crate::discovery::params::TRANSPORT_WEBSOCKETS;
use crate::discovery::suffix::{suffix_from_cbor_spec, suffix_item, Suffix};
use crate::discovery::{decode_tunnel_server_id, tunnel_server_domain};
use crate::error::{Error, Result};
use vstd::prelude::*;

verus! {

/// An unencrypted EID: where the authenticator can be reached, and how.
#[derive(Debug, Clone, Copy, PartialEq, Eq)]
pub struct Eid {
    /// The tunnel server, by number.
    pub tunnel_server_id: u16,
    /// The routing ID at the tunnel server.
    pub routing_id: [u8; 3],
    /// The transport channel that the authenticator chose.
    pub transport: u32,
    /// The authenticator's random nonce.
    pub nonce: [u8; 10],
}

/// The 16-byte plaintext of an EID: a reserved zero byte, the nonce, the routing ID and the
/// tunnel server ID in little-endian order.
pub open spec fn eid_block(e: Eid) -> Seq<u8> {
    seq![0u8] + e.nonce@ + e.routing_id@ + seq![
        (e.tunnel_server_id % 256) as u8,
        (e.tunnel_server_id / 256) as u8,
    ]
}

/// The decrypted bytes of an EID: the 16-byte block, then for any transport other than
/// WebSockets the CBOR suffix naming it; `None` when the suffix cannot be encoded.
pub open spec fn eid_bytes_spec(e: Eid) -> Option<Seq<u8>> {
    if e.transport == TRANSPORT_WEBSOCKETS {
        Some(eid_block(e))
    } else {
        match cbor_encoded(suffix_item(e.transport)) {
            Some(s) => Some(eid_block(e) + s),
            None => None,
        }
    }
}

/// The EID that a decrypted 16-byte block and an optional advertisement suffix give: the
/// reserved byte must be zero, and a suffix must parse; the transport is the suffix's, and
/// WebSockets when there is none.
pub open spec fn eid_from_block_spec(block: Seq<u8>, suffix: Option<Seq<u8>>) -> Option<Eid> {
    if block.len() != 16 || block[0] != 0 {
        None
    } else {
        let transport: Option<u32> = match suffix {
            None => Some(TRANSPORT_WEBSOCKETS),
            Some(s) => match suffix_from_cbor_spec(s) {
                None => None,
                Some(None) => Some(TRANSPORT_WEBSOCKETS),
                Some(Some(t)) => Some(t),
            },
        };
        match transport {
            None => None,
            Some(t) => Some(
                Eid {
                    tunnel_server_id: (block[14] + 256 * block[15]) as u16,
                    routing_id: arbitrary_array3(block.subrange(11, 14)),
                    transport: t,
                    nonce: arbitrary_array10(block.subrange(1, 11)),
                },
            ),
        }
    }
}

/// The array holding `s` (3 bytes).
pub open spec fn arbitrary_array3(s: Seq<u8>) -> [u8; 3] {
    choose|a: [u8; 3]| a@ == s
}

/// The array holding `s` (10 bytes).
pub open spec fn arbitrary_array10(s: Seq<u8>) -> [u8; 10] {
    choose|a: [u8; 10]| a@ == s
}

impl Eid {
    /// A new EID for the tunnel server `tunnel_server_id`, routing ID `routing_id` and
    /// transport `transport`, with the authenticator's random `nonce`.
    ///
    /// Returns `None` when the tunnel server ID does not name a tunnel server.
    pub fn new(tunnel_server_id: u16, routing_id: [u8; 3], transport: u32, nonce: [u8; 10]) -> (r:
        Option<Eid>)
        ensures
            tunnel_server_domain(tunnel_server_id) is None ==> r is None,
            tunnel_server_domain(tunnel_server_id) is Some ==> r == Some(
                Eid { tunnel_server_id, routing_id, transport, nonce },
            ),
    {
        if decode_tunnel_server_id(tunnel_server_id).is_none() {
            return None;
        }
        Some(Eid { tunnel_server_id, routing_id, transport, nonce })
    }

    /// A new EID from a routing ID given as a byte string of any length, as
    /// `nsICtapCableAuthenticatorDiscoverySession.generateEncryptedEID` receives it.
    ///
    /// Fails with [`Error::InvalidArgument`] when the routing ID is not 3 bytes long, or the
    /// tunnel server ID does not name a tunnel server.
    pub fn new_with_routing_id_bytes(
        tunnel_server_id: u16,
        routing_id: &[u8],
        transport: u32,
        nonce: [u8; 10],
    ) -> (r: Result<Eid>)
        ensures
            (routing_id@.len() == 3 && (tunnel_server_domain(tunnel_server_id) is Some)) ==> (r is Ok
                && r->Ok_0.tunnel_server_id == tunnel_server_id && r->Ok_0.routing_id@ == routing_id@
                && r->Ok_0.transport == transport && r->Ok_0.nonce == nonce),
            !(routing_id@.len() == 3 && (tunnel_server_domain(tunnel_server_id) is Some)) ==> (r
                == Err::<Eid, Error>(Error::InvalidArgument)),
    {
        if routing_id.len() != 3 {
            return Err(Error::InvalidArgument);
        }
        let rid: [u8; 3] = [routing_id[0], routing_id[1], routing_id[2]];
        assert(rid@ =~= routing_id@);
        match Eid::new(tunnel_server_id, rid, transport, nonce) {
            Some(e) => Ok(e),
            None => Err(Error::InvalidArgument),
        }
    }

    /// The tunnel server, by number.
    pub fn tunnel_server_id(&self) -> (r: u16)
        ensures
            r == self.tunnel_server_id,
    {
        self.tunnel_server_id
    }

    /// The routing ID at the tunnel server.
    pub fn routing_id(&self) -> (r: [u8; 3])
        ensures
            r == self.routing_id,
    {
        self.routing_id
    }

    /// The transport channel that the authenticator chose.
    pub fn transport(&self) -> (r: u32)
        ensures
            r == self.transport,
    {
        self.transport
    }

    /// The decrypted bytes of this EID: the 16-byte block to encrypt, then the extended
    /// advertisement suffix, if any.
    ///
    /// Fails with [`Error::Internal`] when the suffix cannot be encoded.
    pub fn to_decrypted_bytes(&self) -> (r: Result<Vec<u8>>)
        ensures
            match eid_bytes_spec(*self) {
                Some(b) => r is Ok && r->Ok_0@ == b,
                None => r == Err::<Vec<u8>, Error>(Error::Internal),
            },
            r matches Ok(b) ==> b@.len() >= 16 && eid_from_block_spec(
                b@.subrange(0, 16),
                if self.transport == TRANSPORT_WEBSOCKETS {
                    None
                } else {
                    Some(b@.subrange(16, b@.len() as int))
                },
            ) == Some(*self),
    {
        let mut b: Vec<u8> = Vec::new();
        b.push(0u8);
        append(&mut b, self.nonce.as_slice());
        append(&mut b, self.routing_id.as_slice());
        b.push((self.tunnel_server_id % 256) as u8);
        b.push((self.tunnel_server_id / 256) as u8);
        assert(b@ =~= eid_block(*self));
        proof {
            lemma_eid_block_fields(*self);
        }
        if self.transport == TRANSPORT_WEBSOCKETS {
            assert(b@.subrange(0, 16) =~= b@);
            return Ok(b);
        }
        let suffix = Suffix { transport_channel_identifier: Some(self.transport) };
        match suffix.as_cbor() {
            Ok(Some(s)) => {
                let ghost blk = b@;
                append(&mut b, s.as_slice());
                assert(b@.subrange(0, 16) =~= blk);
                assert(b@.subrange(16, b@.len() as int) =~= s@);
                Ok(b)
            },
            _ => Err(Error::Internal),
        }
    }

    /// Parses a decrypted 16-byte EID block, with the extended advertisement suffix if there
    /// was one.
    ///
    /// Returns `None` when the reserved byte is not zero, or the suffix does not parse.
    pub fn from_decrypted_bytes(block: &[u8; 16], suffix: Option<&[u8]>) -> (r: Option<Eid>)
        ensures
            r == eid_from_block_spec(
                block@,
                match suffix {
                    Some(s) => Some(s@),
                    None => None,
                },
            ),
    {
        if block[0] != 0 {
            return None;
        }
        let transport = match suffix {
            None => TRANSPORT_WEBSOCKETS,
            Some(s) => match Suffix::from_cbor(s) {
                Err(_) => return None,
                Ok(sf) => match sf.transport_channel_identifier {
                    Some(t) => t,
                    None => TRANSPORT_WEBSOCKETS,
                },
            },
        };
        let nonce: [u8; 10] = [
            block[1],
            block[2],
            block[3],
            block[4],
            block[5],
            block[6],
            block[7],
            block[8],
            block[9],
            block[10],
        ];
        let routing_id: [u8; 3] = [block[11], block[12], block[13]];
        assert(nonce@ =~= block@.subrange(1, 11));
        assert(routing_id@ =~= block@.subrange(11, 14));
        let tunnel_server_id: u16 = block[14] as u16 + 256 * block[15] as u16;
        let e = Eid { tunnel_server_id, routing_id, transport, nonce };
        proof {
            let s3 = block@.subrange(11, 14);
            let s10 = block@.subrange(1, 11);
            assert(arbitrary_array3(s3)@ == s3);
            assert(arbitrary_array10(s10)@ == s10);
            assert(arbitrary_array3(s3) == routing_id) by {
                assert(arbitrary_array3(s3)@ =~= routing_id@);
            }
            assert(arbitrary_array10(s10) == nonce) by {
                assert(arbitrary_array10(s10)@ =~= nonce@);
            }
        }
        Some(e)
    }
}

/// The fields of an EID can be read back from its block.
pub proof fn lemma_eid_block_fields(e: Eid)
    ensures
        eid_block(e).len() == 16,
        eid_block(e)[0] == 0,
        arbitrary_array3(eid_block(e).subrange(11, 14)) == e.routing_id,
        arbitrary_array10(eid_block(e).subrange(1, 11)) == e.nonce,
        (eid_block(e)[14] + 256 * eid_block(e)[15]) as u16 == e.tunnel_server_id,
{
    let b = eid_block(e);
    assert(b.subrange(11, 14) =~= e.routing_id@);
    assert(b.subrange(1, 11) =~= e.nonce@);
    assert(arbitrary_array3(b.subrange(11, 14))@ == e.routing_id@);
    assert(arbitrary_array10(b.subrange(1, 11))@ == e.nonce@);
    assert(arbitrary_array3(b.subrange(11, 14)) == e.routing_id);
    assert(arbitrary_array10(b.subrange(1, 11)) == e.nonce);
}

} // verus!
