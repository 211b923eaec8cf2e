//! The authenticator's side of caBLE discovery.

use crate::base10::{decode, decode_spec};
use crate::bytes::{append, starts_with, to_vec};
use crate::discovery::cbor::{
    array_items, as_array, as_entries, cbor_decode, cbor_decoded, entries_items, get_int_key,
    lookup, CborItem, CborValue,
};
use crate::discovery::eid::{eid_bytes_spec, eid_from_block_spec, Eid};
use crate::discovery::params::{
    Params, ParamsView, KEY_KNOWN_DOMAIN_COUNT, KEY_PUBKEY, KEY_REQUEST_TYPE, KEY_SHARED_SECRET,
    KEY_SUPPORTED_TRANSPORTS, KEY_SUPPORTS_STATE_ASSISTED_TRANSACTIONS, KEY_TIMESTAMP,
    TRANSPORT_L2CAP, TRANSPORT_WEBSOCKETS,
};
use crate::ec::is_compressed_sec1;
use crate::discovery::{derive_spec, KeyPurpose, SharedSecret};
use crate::error::{Error, Result};
use crate::hash::{hmac, hmac_spec};
use vstd::prelude::*;

verus! {

/// The scheme of caBLE QR code URLs, `FIDO:/`, in ASCII.
pub open spec fn qr_protocol() -> Seq<u8> {
    seq![70u8, 73u8, 68u8, 79u8, 58u8, 47u8]
}

/// The entries of the CBOR map in a QR code URL: the URL must start with `FIDO:/`, be
/// followed by non-empty valid base10 digits, and those must decode to a CBOR map.
pub open spec fn qr_entries(url: Seq<u8>) -> Option<Seq<(CborItem, CborItem)>> {
    if url.len() < 6 || url.subrange(0, 6) != qr_protocol() || url.len() == 6 {
        None
    } else {
        match decode_spec(url.subrange(6, url.len() as int)) {
            None => None,
            Some(d) => match cbor_decoded(d) {
                Some(CborItem::Entries(es)) => Some(es),
                _ => None,
            },
        }
    }
}

/// What a list of supported transports gives: whether any was seen, and whether WebSockets
/// and L2CAP are among them. The list is read up to the first element that is not an
/// integer fitting in 32 bits.
pub open spec fn scan_transports(items: Seq<CborItem>) -> (bool, bool, bool)
    decreases items.len(),
{
    if items.len() == 0 {
        (false, false, false)
    } else {
        match items[0] {
            CborItem::Integer(t) => if 0 <= t <= u32::MAX {
                let (s, w, l) = scan_transports(items.drop_first());
                (true, w || t == 0, l || t == 1)
            } else {
                (false, false, false)
            },
            _ => (false, false, false),
        }
    }
}

/// Whether a supported-transports element is one that is read: an integer fitting in 32
/// bits.
pub open spec fn is_transport_id(x: CborItem) -> bool {
    x matches CborItem::Integer(t) && 0 <= t <= u32::MAX
}

/// Whether `t` occurs in `items` with only read elements before it.
pub open spec fn read_before(items: Seq<CborItem>, t: CborItem) -> bool {
    exists|i: int|
        0 <= i < items.len() && items[i] == t && forall|j: int|
            0 <= j < i ==> #[trigger] is_transport_id(items[j])
}

/// Unfolds [`read_before`] by the first element.
proof fn lemma_read_before_unfold(items: Seq<CborItem>, t: CborItem)
    requires
        items.len() > 0,
    ensures
        read_before(items, t) <==> (items[0] == t || (is_transport_id(items[0]) && read_before(
            items.drop_first(),
            t,
        ))),
{
    let rest = items.drop_first();
    if read_before(items, t) && items[0] != t {
        let i = choose|i: int|
            0 <= i < items.len() && items[i] == t && forall|j: int|
                0 <= j < i ==> #[trigger] is_transport_id(items[j]);
        assert(i > 0);
        assert(is_transport_id(items[0]));
        assert(rest[i - 1] == t);
        assert forall|j: int| 0 <= j < i - 1 implies #[trigger] is_transport_id(rest[j]) by {
            assert(rest[j] == items[j + 1]);
        }
    }
    if items[0] == t {
        assert(forall|j: int| 0 <= j < 0 ==> #[trigger] is_transport_id(items[j]));
    } else if is_transport_id(items[0]) && read_before(rest, t) {
        let i = choose|i: int|
            0 <= i < rest.len() && rest[i] == t && forall|j: int|
                0 <= j < i ==> #[trigger] is_transport_id(rest[j]);
        assert(items[i + 1] == t);
        assert forall|j: int| 0 <= j < i + 1 implies #[trigger] is_transport_id(items[j]) by {
            if j > 0 {
                assert(items[j] == rest[j - 1]);
            }
        }
    }
}

/// Reading a list of supported transports sees a transport exactly when the list starts
/// with an integer fitting in 32 bits; it sets the WebSockets flag exactly when the
/// integer `TRANSPORT_WEBSOCKETS` occurs in the list with only such integers before it,
/// and the L2CAP flag exactly when `TRANSPORT_L2CAP` does.
pub proof fn lemma_scan_transports(items: Seq<CborItem>)
    ensures
        scan_transports(items).0 <==> (items.len() > 0 && is_transport_id(items[0])),
        scan_transports(items).1 <==> read_before(
            items,
            CborItem::Integer(TRANSPORT_WEBSOCKETS as int),
        ),
        scan_transports(items).2 <==> read_before(items, CborItem::Integer(TRANSPORT_L2CAP as int)),
    decreases items.len(),
{
    let ws = CborItem::Integer(TRANSPORT_WEBSOCKETS as int);
    let l2 = CborItem::Integer(TRANSPORT_L2CAP as int);
    if items.len() == 0 {
    } else {
        lemma_read_before_unfold(items, ws);
        lemma_read_before_unfold(items, l2);
        if is_transport_id(items[0]) {
            lemma_scan_transports(items.drop_first());
        }
    }
}

/// In a list of transport IDs only, a transport is read exactly when it is in the list.
proof fn lemma_read_before_all_ids(items: Seq<CborItem>, t: CborItem)
    requires
        forall|i: int| 0 <= i < items.len() ==> #[trigger] is_transport_id(items[i]),
    ensures
        read_before(items, t) <==> items.contains(t),
{
    if items.contains(t) {
        let i = choose|i: int| 0 <= i < items.len() && items[i] == t;
        assert(forall|j: int| 0 <= j < i ==> #[trigger] is_transport_id(items[j]));
    }
}

/// The request parameters that a QR code carries.
pub struct QrParams {
    pub shared_secret: Seq<u8>,
    pub peer_identity: Seq<u8>,
    pub known_domain_count: u16,
    pub timestamp: u64,
    pub supports_state_assisted_transactions: bool,
    pub request_type: Seq<char>,
    pub supports_websocket_transport: bool,
    pub supports_l2cap_transport: bool,
}

/// The parameters of a QR code map, or `None` when a required entry is missing or
/// malformed: key 1 must be a 16-byte secret, key 0 a compressed P-256 point (33 bytes,
/// starting with 2 or 3), key 2
/// an integer fitting in 16 bits and key 5 a text string. Key 3 gives the timestamp when
/// it is an integer fitting in 64 bits, key 4 the state-assisted flag when it is a boolean,
/// and key 6 the supported transports when it is an array; when no transport is read,
/// WebSockets is assumed.
pub open spec fn qr_params(es: Seq<(CborItem, CborItem)>) -> Option<QrParams> {
    match (lookup(es, 1), lookup(es, 0), lookup(es, 2), lookup(es, 5)) {
        (
            Some(CborItem::Bytes(secret)),
            Some(CborItem::Bytes(peer)),
            Some(CborItem::Integer(kdc)),
            Some(CborItem::Text(rt)),
        ) => if secret.len() == 16 && is_compressed_sec1(peer) && 0 <= kdc <= u16::MAX {
            let (seen, ws, l2) = match lookup(es, 6) {
                Some(CborItem::Array(items)) => scan_transports(items),
                _ => (false, false, false),
            };
            Some(
                QrParams {
                    shared_secret: secret,
                    peer_identity: peer,
                    known_domain_count: kdc as u16,
                    timestamp: match lookup(es, 3) {
                        Some(CborItem::Integer(t)) => if 0 <= t <= u64::MAX {
                            t as u64
                        } else {
                            0
                        },
                        _ => 0,
                    },
                    supports_state_assisted_transactions: match lookup(es, 4) {
                        Some(CborItem::Bool(b)) => b,
                        _ => false,
                    },
                    request_type: rt,
                    supports_websocket_transport: ws || !seen,
                    supports_l2cap_transport: l2,
                },
            )
        } else {
            None
        },
        _ => None,
    }
}

/// The QR code parameters of a URL.
pub open spec fn qr_url_params(url: Seq<u8>) -> Option<QrParams> {
    match qr_entries(url) {
        Some(es) => qr_params(es),
        None => None,
    }
}

/// An EID block to encrypt: the caller encrypts `block` with AES-256-CBC (zero IV) under
/// the EID encryption key.
pub struct EidPlaintext {
    /// The 16-byte block to encrypt.
    pub block: [u8; 16],
    /// The extended advertisement suffix, sent unencrypted after the signature.
    pub suffix: Vec<u8>,
}

/// The authenticator's discovery session, started from the initiator's QR code.
pub struct AuthenticatorSession {
    /// Request parameters, set by the initiator.
    params: Params,
    /// The unencrypted EID of the last advertisement.
    eid: Option<Eid>,
    /// The initiator's identity public key, as a compressed P-256 point.
    peer_identity: [u8; 33],
    /// The Noise pre-shared key, once an EID has been generated.
    psk: Option<[u8; 32]>,
}

/// What an [`AuthenticatorSession`] holds.
pub struct AuthenticatorSessionView {
    pub params: ParamsView,
    pub eid: Option<Eid>,
    pub peer_identity: Seq<u8>,
    pub psk: Option<Seq<u8>>,
}

impl View for AuthenticatorSession {
    type V = AuthenticatorSessionView;

    closed spec fn view(&self) -> AuthenticatorSessionView {
        AuthenticatorSessionView {
            params: self.params@,
            eid: self.eid,
            peer_identity: self.peer_identity@,
            psk: match self.psk {
                Some(k) => Some(k@),
                None => None,
            },
        }
    }
}

impl AuthenticatorSession {
    /// The session is well formed: the initiator's identity key is a compressed point, and
    /// there is a pre-shared key exactly when an EID has been generated.
    pub open spec fn wf(&self) -> bool {
        &&& is_compressed_sec1(self@.peer_identity)
        &&& (self@.psk is Some <==> self@.eid is Some)
    }
}

/// A caBLE QR code, read: the initiator's request parameters and its identity key, which
/// the caller imports (as a P-256 point) before starting a session with
/// [`AuthenticatorSession::new_with_qr_url`].
pub struct QrCode {
    params: Params,
    peer_identity: [u8; 33],
}

/// What a [`QrCode`] holds.
pub struct QrCodeView {
    pub params: ParamsView,
    pub peer_identity: Seq<u8>,
}

impl View for QrCode {
    type V = QrCodeView;

    closed spec fn view(&self) -> QrCodeView {
        QrCodeView { params: self.params@, peer_identity: self.peer_identity@ }
    }
}

impl QrCode {
    /// The initiator's identity public key, as a compressed P-256 point.
    pub fn peer_identity(&self) -> (r: [u8; 33])
        ensures
            r@ == self@.peer_identity,
    {
        self.peer_identity
    }

    /// The request parameters.
    pub fn params(&self) -> (r: &Params)
        ensures
            r@ == self@.params,
    {
        &self.params
    }
}

/// What reading the QR code URL `url` gives: [`Error::InvalidArgument`] when the URL
/// carries no parameters (see [`qr_url_params`]); otherwise the QR code's parameters and
/// identity key.
pub open spec fn qr_code_spec(url: Seq<u8>, r: Result<QrCode>) -> bool {
    match qr_url_params(url) {
        None => r == Err::<QrCode, Error>(Error::InvalidArgument),
        Some(q) => {
            &&& r is Ok
            &&& r->Ok_0@ == (QrCodeView {
                params: ParamsView {
                    shared_secret: q.shared_secret,
                    known_domain_count: q.known_domain_count,
                    supports_state_assisted_transactions: q.supports_state_assisted_transactions,
                    timestamp: q.timestamp,
                    request_type: q.request_type,
                    supports_websocket_transport: q.supports_websocket_transport,
                    supports_l2cap_transport: q.supports_l2cap_transport,
                },
                peer_identity: q.peer_identity,
            })
        },
    }
}

/// What starting a session from a read QR code `qr` gives, where `peer_identity_imported`
/// says whether importing its identity key as a P-256 point succeeded:
/// [`Error::InvalidArgument`] when it did not; otherwise a well-formed session with the QR
/// code's parameters and identity key, and no EID yet.
pub open spec fn session_from_qr_spec(qr: QrCodeView, peer_identity_imported: bool, r: Result<AuthenticatorSession>) -> bool {
    if peer_identity_imported && is_compressed_sec1(qr.peer_identity) {
        &&& r is Ok
        &&& r->Ok_0.wf()
        &&& r->Ok_0@ == (AuthenticatorSessionView {
            params: qr.params,
            eid: None,
            peer_identity: qr.peer_identity,
            psk: None,
        })
    } else {
        r == Err::<AuthenticatorSession, Error>(Error::InvalidArgument)
    }
}

/// The transports that a QR code's parameters support: when its map's supported
/// transports entry is a non-empty list of transport IDs, WebSockets exactly when
/// `TRANSPORT_WEBSOCKETS` is in the list and L2CAP exactly when `TRANSPORT_L2CAP` is; when
/// the map has no such list, WebSockets alone.
pub proof fn lemma_qr_params_transports(es: Seq<(CborItem, CborItem)>)
    requires
        qr_params(es) is Some,
    ensures
        lookup(es, KEY_SUPPORTED_TRANSPORTS as int) matches Some(CborItem::Array(items)) ==> (
        items.len() > 0 && (forall|i: int| 0 <= i < items.len() ==> #[trigger] is_transport_id(items[i]))
            ==> {
            &&& (qr_params(es)->Some_0.supports_websocket_transport <==> items.contains(
                CborItem::Integer(TRANSPORT_WEBSOCKETS as int),
            ))
            &&& (qr_params(es)->Some_0.supports_l2cap_transport <==> items.contains(
                CborItem::Integer(TRANSPORT_L2CAP as int),
            ))
        }),
        !(lookup(es, KEY_SUPPORTED_TRANSPORTS as int) matches Some(CborItem::Array(_))) ==> {
            &&& qr_params(es)->Some_0.supports_websocket_transport
            &&& !qr_params(es)->Some_0.supports_l2cap_transport
        },
{
    if let Some(CborItem::Array(items)) = lookup(es, 6) {
        lemma_scan_transports(items);
        if items.len() > 0 && (forall|i: int| 0 <= i < items.len() ==> #[trigger] is_transport_id(items[i])) {
            lemma_read_before_all_ids(items, CborItem::Integer(TRANSPORT_WEBSOCKETS as int));
            lemma_read_before_all_ids(items, CborItem::Integer(TRANSPORT_L2CAP as int));
        }
    }
}

/// Reads a list of supported transports, up to the first element that is not an integer
/// fitting in 32 bits: whether any was seen, and whether WebSockets and L2CAP are among
/// them.
fn read_transports(supported_transports: &Vec<CborValue>) -> (r: (bool, bool, bool))
    ensures
        r == scan_transports(array_items(*supported_transports)),
{
    let ghost items = array_items(*supported_transports);
    let mut seen_transport = false;
    let mut ws = false;
    let mut l2 = false;
    let mut k: usize = 0;
    assert(items.skip(0) =~= items);
    while k < supported_transports.len()
        invariant
            k <= supported_transports@.len(),
            items == array_items(*supported_transports),
            ({
                let (s, w, l) = scan_transports(items.skip(k as int));
                scan_transports(items) == (seen_transport || s, ws || w, l2 || l)
            }),
        decreases supported_transports@.len() - k,
    {
        assert(items.skip(k as int).drop_first() =~= items.skip(k + 1));
        assert(items.skip(k as int)[0] == supported_transports[k as int].item());
        let transport = match &supported_transports[k] {
            CborValue::Integer(t) => *t,
            // Unexpected type
            _ => return (seen_transport, ws, l2),
        };
        if transport < 0 || transport > 0xffff_ffff {
            // Unexpected size
            return (seen_transport, ws, l2);
        }
        seen_transport = true;
        if transport == TRANSPORT_WEBSOCKETS as i128 {
            ws = true;
        } else if transport == TRANSPORT_L2CAP as i128 {
            l2 = true;
        }
        k += 1;
    }
    assert(items.skip(k as int) =~= Seq::<CborItem>::empty());
    (seen_transport, ws, l2)
}

impl AuthenticatorSession {
    /// Read a caBLE QR code URL (`FIDO:/` then base10 digits of a CBOR map): the first step
    /// of starting a session.
    ///
    /// Fails with [`Error::InvalidArgument`] when the URL is malformed, or the map lacks a
    /// required parameter.
    pub fn read_qr_url(url: &[u8]) -> (r: Result<QrCode>)
        ensures
            qr_code_spec(url@, r),
    {
        let protocol: [u8; 6] = [70, 73, 68, 79, 58, 47];
        assert(protocol@ =~= qr_protocol());
        if !starts_with(url, protocol.as_slice()) {
            return Err(Error::InvalidArgument);
        }
        let rest = &url[6..url.len()];
        if rest.len() == 0 {
            // Empty string is valid for base10, but not valid for this.
            return Err(Error::InvalidArgument);
        }
        let decoded = decode(rest)?;
        let cbor = match cbor_decode(decoded.as_slice()) {
            Some(v) => v,
            None => return Err(Error::InvalidArgument),
        };
        let map = match as_entries(&cbor) {
            Some(m) => m,
            None => return Err(Error::InvalidArgument),
        };
        let ghost es = entries_items(*map);
        assert(qr_entries(url@) == Some(es));

        let shared_secret = match get_int_key(map, KEY_SHARED_SECRET) {
            Some(CborValue::Bytes(b)) => b,
            _ => return Err(Error::InvalidArgument),
        };
        if shared_secret.len() != 16 {
            return Err(Error::InvalidArgument);
        }
        let secret: [u8; 16] = [
            shared_secret[0],
            shared_secret[1],
            shared_secret[2],
            shared_secret[3],
            shared_secret[4],
            shared_secret[5],
            shared_secret[6],
            shared_secret[7],
            shared_secret[8],
            shared_secret[9],
            shared_secret[10],
            shared_secret[11],
            shared_secret[12],
            shared_secret[13],
            shared_secret[14],
            shared_secret[15],
        ];
        assert(secret@ =~= shared_secret@);
        let mut params = Params::new_with_shared_secret(SharedSecret(secret))?;

        let peer_identity = match get_int_key(map, KEY_PUBKEY) {
            Some(CborValue::Bytes(b)) => b,
            _ => return Err(Error::InvalidArgument),
        };
        if peer_identity.len() != 33 || (peer_identity[0] != 2 && peer_identity[0] != 3) {
            // Not a compressed P-256 point.
            return Err(Error::InvalidArgument);
        }
        let mut peer = [0u8; 33];
        let mut i: usize = 0;
        while i < 33
            invariant
                i <= 33,
                peer_identity@.len() == 33,
                peer@.len() == 33,
                forall|j: int| 0 <= j < i ==> peer@[j] == peer_identity@[j],
            decreases 33 - i,
        {
            peer[i] = peer_identity[i];
            i += 1;
        }
        assert(peer@ =~= peer_identity@);

        let known_domain_count = match get_int_key(map, KEY_KNOWN_DOMAIN_COUNT) {
            Some(CborValue::Integer(k)) => *k,
            _ => return Err(Error::InvalidArgument),
        };
        if known_domain_count < 0 || known_domain_count > 0xffff {
            return Err(Error::InvalidArgument);
        }
        params.set_known_domain_count(known_domain_count as u16);

        match get_int_key(map, KEY_TIMESTAMP) {
            Some(CborValue::Integer(t)) => {
                if 0 <= *t && *t <= 0xffff_ffff_ffff_ffff {
                    params.set_timestamp(*t as u64);
                }
            },
            _ => {},
        }

        match get_int_key(map, KEY_SUPPORTS_STATE_ASSISTED_TRANSACTIONS) {
            Some(CborValue::Bool(b)) => {
                params.set_supports_state_assisted_transactions(*b);
            },
            _ => {},
        }

        let request_type = match get_int_key(map, KEY_REQUEST_TYPE) {
            Some(CborValue::Text(t)) => t,
            _ => return Err(Error::InvalidArgument),
        };
        params.set_request_type(request_type.clone());

        // Chromium before CTAP 2.2 used this as a flag for whether it supported
        // non-discoverable MakeCredential, which CTAP 2.2 did not adopt. CTAP 2.3 made this
        // the supported transports.
        let (seen_transport, ws, l2) = match get_int_key(map, KEY_SUPPORTED_TRANSPORTS) {
            Some(v) => match as_array(v) {
                Some(supported_transports) => read_transports(supported_transports),
                None => (false, false, false),
            },
            None => (false, false, false),
        };
        if ws {
            params.set_supports_websocket_transport(true);
        }
        if l2 {
            params.set_supports_l2cap_transport(true);
        }
        if !seen_transport {
            // There was no supported transports key, it was empty, or it contained
            // unexpected data; treat it as the default.
            params.set_supports_websocket_transport(true);
        }

        Ok(QrCode { params, peer_identity: peer })
    }

    /// Start a session from a QR code read by [`Self::read_qr_url`], once the caller has
    /// imported its identity key as a P-256 point: `peer_identity_imported` says whether
    /// that import succeeded.
    ///
    /// Fails with [`Error::InvalidArgument`] when the identity key is not a point of the
    /// curve (the import failed).
    pub fn new_with_qr_url(qr: QrCode, peer_identity_imported: bool) -> (r: Result<Self>)
        ensures
            session_from_qr_spec(qr@, peer_identity_imported, r),
    {
        if !peer_identity_imported {
            // Not a point of the curve.
            return Err(Error::InvalidArgument);
        }
        if qr.peer_identity[0] != 2 && qr.peer_identity[0] != 3 {
            return Err(Error::InvalidArgument);
        }
        Ok(AuthenticatorSession { params: qr.params, eid: None, peer_identity: qr.peer_identity, psk: None })
    }
}

/// The extended advertisement suffix that is sent with an EID: none for WebSockets, and
/// the bytes after the block otherwise.
pub open spec fn suffix_sent(eid: Eid, suffix: Seq<u8>) -> Option<Seq<u8>> {
    if eid.transport == TRANSPORT_WEBSOCKETS {
        None
    } else {
        Some(suffix)
    }
}

/// The encrypted advertisement: the encrypted block, the first four bytes of its HMAC
/// under the EID signing key, then the suffix.
pub open spec fn advertisement_spec(signing_key: Seq<u8>, encrypted: Seq<u8>, suffix: Seq<u8>) -> Seq<u8> {
    encrypted + hmac_spec(signing_key, encrypted).subrange(0, 4) + suffix
}

impl AuthenticatorSession {
    /// First step of encrypting an [`Eid`]: the block to encrypt and the suffix.
    ///
    /// Fails with [`Error::InvalidArgument`] when the initiator does not support the EID's
    /// transport, or the transport is unknown.
    pub fn prepare_encrypt_eid(&self, eid: &Eid) -> (r: Result<EidPlaintext>)
        ensures
            eid.transport != TRANSPORT_WEBSOCKETS && eid.transport != TRANSPORT_L2CAP ==> r
                == Err::<EidPlaintext, Error>(Error::InvalidArgument),
            eid.transport == TRANSPORT_WEBSOCKETS && !self@.params.supports_websocket_transport
                ==> r == Err::<EidPlaintext, Error>(Error::InvalidArgument),
            eid.transport == TRANSPORT_L2CAP && !self@.params.supports_l2cap_transport ==> r
                == Err::<EidPlaintext, Error>(Error::InvalidArgument),
            (eid.transport == TRANSPORT_WEBSOCKETS && self@.params.supports_websocket_transport)
                || (eid.transport == TRANSPORT_L2CAP && self@.params.supports_l2cap_transport) ==> match eid_bytes_spec(*eid) {
                None => r == Err::<EidPlaintext, Error>(Error::Internal),
                Some(b) => r is Ok && r->Ok_0.block@ + r->Ok_0.suffix@ == b
                    && r->Ok_0.block@ == b.subrange(0, 16),
            },
            r matches Ok(pt) ==> eid_from_block_spec(pt.block@, suffix_sent(*eid, pt.suffix@))
                == Some(*eid),
    {
        if !self.params.supports_transport(eid.transport)? {
            return Err(Error::InvalidArgument);
        }
        let b = eid.to_decrypted_bytes()?;
        if b.len() < 16 {
            return Err(Error::Internal);
        }
        let mut block = [0u8; 16];
        let mut i: usize = 0;
        while i < 16
            invariant
                i <= 16 <= b@.len(),
                block@.len() == 16,
                forall|j: int| 0 <= j < i ==> block@[j] == b@[j],
            decreases 16 - i,
        {
            block[i] = b[i];
            i += 1;
        }
        assert(block@ =~= b@.subrange(0, 16));
        let suffix = to_vec(&b.as_slice()[16..b.len()]);
        assert(block@ + suffix@ =~= b@);
        assert(suffix@ =~= b@.subrange(16, b@.len() as int));
        Ok(EidPlaintext { block, suffix })
    }

    /// Second step of encrypting an [`Eid`]: from the encrypted block (`None` when
    /// encryption failed), the advertisement to send. The EID and the pre-shared key it
    /// gives are then recorded.
    ///
    /// The first 20 bytes are a regular BLE advertisement; additional bytes are for
    /// extended advertisements.
    pub fn complete_encrypt_eid(
        &mut self,
        eid: Eid,
        plaintext: &EidPlaintext,
        encrypted: Option<[u8; 16]>,
    ) -> (r: Result<Vec<u8>>)
        requires
            old(self).wf(),
            eid_bytes_spec(eid) matches Some(b) && plaintext.block@ + plaintext.suffix@ == b,
        ensures
            final(self).wf(),
            encrypted is None ==> r == Err::<Vec<u8>, Error>(Error::Failure) && final(self)@ == old(self)@,
            encrypted matches Some(c) ==> {
                &&& r is Ok
                &&& r->Ok_0@ == advertisement_spec(old(self)@.params.eid_signing_key(), c@, plaintext.suffix@)
                &&& r->Ok_0@.len() == 20 + plaintext.suffix@.len()
                &&& r->Ok_0@.subrange(0, 16) == c@
                &&& r->Ok_0@.subrange(16, 20) == hmac_spec(old(self)@.params.eid_signing_key(), c@).subrange(0, 4)
                &&& r->Ok_0@.subrange(20, r->Ok_0@.len() as int) == plaintext.suffix@
                &&& final(self)@ == (AuthenticatorSessionView {
                    eid: Some(eid),
                    psk: Some(derive_spec(KeyPurpose::Psk, old(self)@.params.shared_secret, plaintext.block@, 32)),
                    ..old(self)@
                })
            },
    {
        let encrypted = match encrypted {
            Some(c) => c,
            None => return Err(Error::Failure),
        };
        // Derive PSK
        let psk_bytes = KeyPurpose::Psk.derive(self.params.shared_secret().as_slice(), plaintext.block.as_slice(), 32)?;
        let psk = crate::bytes::to_array32(psk_bytes.as_slice());
        // Sign main part
        let signature = hmac(self.params.eid_key().signing_key.as_slice(), encrypted.as_slice());
        let mut o = to_vec(encrypted.as_slice());
        append(&mut o, &signature.as_slice()[0..4]);
        append(&mut o, plaintext.suffix.as_slice());
        proof {
            crate::hash::lemma_hmac_len(self.params@.eid_signing_key(), encrypted@);
            let sig = hmac_spec(self.params@.eid_signing_key(), encrypted@);
            assert(o@.subrange(0, 16) =~= encrypted@);
            assert(o@.subrange(16, 20) =~= sig.subrange(0, 4));
            assert(o@.subrange(20, o@.len() as int) =~= plaintext.suffix@);
        }
        self.psk = Some(psk);
        self.eid = Some(eid);
        Ok(o)
    }

    /// The EID of the last advertisement.
    pub fn eid(&self) -> (r: Option<&Eid>)
        ensures
            match r {
                Some(e) => self@.eid == Some(*e),
                None => self@.eid is None,
            },
    {
        self.eid.as_ref()
    }

    /// The request parameters.
    pub fn params(&self) -> (r: &Params)
        ensures
            r@ == self@.params,
    {
        &self.params
    }

    /// The initiator's identity public key, as a compressed P-256 point.
    pub fn peer_identity(&self) -> (r: [u8; 33])
        ensures
            r@ == self@.peer_identity,
    {
        self.peer_identity
    }

    /// The pre-shared key for the Noise handshake as responder (`as_responder`); the
    /// caller builds a `KNpsk0` responder with it and the initiator's identity.
    ///
    /// Fails with [`Error::InvalidState`] before an EID has been generated.
    pub fn responder_psk(&self) -> (r: Result<[u8; 32]>)
        ensures
            match self@.psk {
                Some(k) => r is Ok && r->Ok_0@ == k,
                None => r == Err::<[u8; 32], Error>(Error::InvalidState),
            },
            self.wf() && self@.eid is None ==> r == Err::<[u8; 32], Error>(Error::InvalidState),
    {
        match self.psk {
            Some(k) => Ok(k),
            None => Err(Error::InvalidState),
        }
    }
}

} // verus!
