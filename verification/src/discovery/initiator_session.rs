//! The initiator's side of caBLE discovery.

use crate::base10::{all_digits, encode, encode_spec, lemma_encode_all_digits, lemma_encode_nonempty};
use crate::bytes::{bytes_eq, to_vec};
use crate::discovery::authenticator_session::{advertisement_spec, qr_protocol};
use crate::discovery::cbor::{
    array_items, cbor_canonical_map, cbor_decoded, cbor_encode_packed, cbor_encoded, cbor_flat,
    entries_items, lookup, small_key, CborItem, CborValue,
};
use crate::discovery::authenticator_session::{
    is_transport_id, qr_params, qr_url_params, scan_transports, qr_code_spec, AuthenticatorSession, QrCode, QrParams,
};
use crate::base10::lemma_decode_encode;
use crate::discovery::eid::{eid_block, eid_bytes_spec, eid_from_block_spec, lemma_eid_block_fields, Eid};
use crate::discovery::params::{
    Params, ParamsView, KEY_KNOWN_DOMAIN_COUNT, KEY_PUBKEY, KEY_REQUEST_TYPE, KEY_SHARED_SECRET,
    KEY_SUPPORTED_TRANSPORTS, KEY_SUPPORTS_STATE_ASSISTED_TRANSACTIONS, KEY_TIMESTAMP,
    TRANSPORT_L2CAP, TRANSPORT_WEBSOCKETS,
};
use crate::discovery::{
    decode_tunnel_server_id, derive_spec, hex, hex_spec, tunnel_server_domain, KeyPurpose,
};
use crate::error::{Error, Result};
use crate::hash::{hmac, hmac_spec};
use crate::ec::is_compressed_sec1;
use vstd::prelude::*;
use vstd::string::*;
use vstd::utf8::{encode_utf8, is_ascii_chars, is_ascii_chars_encode_utf8};

verus! {

/// The supported transports list of a QR code, when one is sent: it is sent when L2CAP is
/// supported or WebSockets is not (WebSockets alone is the default), and must not be empty.
pub open spec fn transports_item(p: ParamsView) -> Option<Option<CborItem>> {
    if p.supports_l2cap_transport || !p.supports_websocket_transport {
        let ws: Seq<CborItem> = if p.supports_websocket_transport {
            seq![CborItem::Integer(0)]
        } else {
            Seq::empty()
        };
        let l2: Seq<CborItem> = if p.supports_l2cap_transport {
            seq![CborItem::Integer(1)]
        } else {
            Seq::empty()
        };
        if ws + l2 == Seq::<CborItem>::empty() {
            None
        } else {
            Some(Some(CborItem::Array(ws + l2)))
        }
    } else {
        Some(None)
    }
}

/// The supported transports list that a QR code carries holds only transport IDs that a
/// reader reads, holds `TRANSPORT_WEBSOCKETS` exactly when WebSockets is supported and
/// `TRANSPORT_L2CAP` exactly when L2CAP is; it is left out exactly when WebSockets alone is
/// supported, and no QR code can be made when neither is.
pub proof fn lemma_transports_item(p: ParamsView)
    ensures
        transports_item(p) is None <==> (!p.supports_websocket_transport
            && !p.supports_l2cap_transport),
        transports_item(p) == Some(None::<CborItem>) <==> (p.supports_websocket_transport
            && !p.supports_l2cap_transport),
        transports_item(p) matches Some(Some(item)) ==> {
            &&& item matches CborItem::Array(a)
            &&& forall|i: int| 0 <= i < a.len() ==> #[trigger] is_transport_id(a[i])
            &&& (a.contains(CborItem::Integer(TRANSPORT_WEBSOCKETS as int))
                <==> p.supports_websocket_transport)
            &&& (a.contains(CborItem::Integer(TRANSPORT_L2CAP as int))
                <==> p.supports_l2cap_transport)
        },
{
    let w = CborItem::Integer(TRANSPORT_WEBSOCKETS as int);
    let l = CborItem::Integer(TRANSPORT_L2CAP as int);
    if p.supports_l2cap_transport || !p.supports_websocket_transport {
        let ws: Seq<CborItem> = if p.supports_websocket_transport {
            seq![w]
        } else {
            Seq::empty()
        };
        let l2: Seq<CborItem> = if p.supports_l2cap_transport {
            seq![l]
        } else {
            Seq::empty()
        };
        let a = ws + l2;
        if p.supports_websocket_transport {
            assert(a[0] == w);
        }
        if p.supports_l2cap_transport {
            assert(a[a.len() - 1] == l);
        }
        if !p.supports_websocket_transport && !p.supports_l2cap_transport {
            assert(a =~= Seq::<CborItem>::empty());
        } else {
            assert(a.len() > 0);
            assert(a != Seq::<CborItem>::empty());
        }
        assert forall|i: int| 0 <= i < a.len() implies (a[i] == w && p.supports_websocket_transport)
            || (a[i] == l && p.supports_l2cap_transport) by {
            if p.supports_websocket_transport && i == 0 {
            } else {
                assert(a[i] == l2[i - ws.len()]);
            }
        }
    }
}

/// The CBOR map of a QR code for parameters `p` and the initiator's compressed public key
/// `pubkey`, in key order: 0 the key, 1 the secret, 2 the known domain count, 3 the
/// timestamp (when not 0), 4 the state-assisted flag, 5 the request type, 6 the supported
/// transports (when sent). `None` when the request type is empty or no transport is
/// supported.
pub open spec fn qr_map_spec(p: ParamsView, pubkey: Seq<u8>) -> Option<CborItem> {
    if p.request_type.len() == 0 {
        None
    } else {
        match transports_item(p) {
            None => None,
            Some(t) => {
                let head = seq![
                    (CborItem::Integer(0), CborItem::Bytes(pubkey)),
                    (CborItem::Integer(1), CborItem::Bytes(p.shared_secret)),
                    (CborItem::Integer(2), CborItem::Integer(p.known_domain_count as int)),
                ];
                let ts = if p.timestamp != 0 {
                    seq![(CborItem::Integer(3), CborItem::Integer(p.timestamp as int))]
                } else {
                    Seq::empty()
                };
                let tail = seq![
                    (CborItem::Integer(4), CborItem::Bool(p.supports_state_assisted_transactions)),
                    (CborItem::Integer(5), CborItem::Text(p.request_type)),
                ];
                let tr = match t {
                    Some(a) => seq![(CborItem::Integer(6), a)],
                    None => Seq::empty(),
                };
                Some(CborItem::Entries(head + ts + tail + tr))
            },
        }
    }
}

/// The QR code URL bytes: `FIDO:/` then the base10 digits of the encoded map.
pub open spec fn qr_url_spec(p: ParamsView, pubkey: Seq<u8>) -> core::result::Result<Seq<u8>, Error> {
    match qr_map_spec(p, pubkey) {
        None => Err(Error::InvalidArgument),
        Some(m) => match cbor_encoded(m) {
            None => Err(Error::Internal),
            Some(b) => Ok(qr_protocol() + encode_spec(b)),
        },
    }
}

/// The characters of ASCII bytes.
pub open spec fn ascii_chars(b: Seq<u8>) -> Seq<char> {
    Seq::new(b.len(), |i: int| ascii_char(b[i]))
}

/// The character of an ASCII byte that is a digit or one of `FIDO:/`.
pub open spec fn ascii_char(b: u8) -> char {
    if b == 48 { '0' } else if b == 49 { '1' } else if b == 50 { '2' } else if b == 51 { '3' }
    else if b == 52 { '4' } else if b == 53 { '5' } else if b == 54 { '6' } else if b == 55 { '7' }
    else if b == 56 { '8' } else if b == 57 { '9' } else if b == 70 { 'F' } else if b == 73 { 'I' }
    else if b == 68 { 'D' } else if b == 79 { 'O' } else if b == 58 { ':' } else { '/' }
}

/// The characters of a QR code URL are ASCII, so its UTF-8 bytes are the URL's bytes.
pub proof fn lemma_qr_url_utf8(digits: Seq<u8>)
    requires
        all_digits(digits),
    ensures
        encode_utf8(ascii_chars(qr_protocol() + digits)) == qr_protocol() + digits,
{
    let u = qr_protocol() + digits;
    let cs = ascii_chars(u);
    assert forall|i: int| 0 <= i < u.len() implies (#[trigger] ascii_char(u[i])) as u8 == u[i] && '\0' <= ascii_char(u[i]) <= '\u{7f}' by {
        if i >= 6 {
            assert(u[i] == digits[i - 6]);
        }
    }
    assert(is_ascii_chars(cs));
    is_ascii_chars_encode_utf8(cs);
    assert(encode_utf8(cs) =~= u);
}

/// The WebSocket URL of a tunnel: `wss://{domain}/cable/connect/{routing ID}/{tunnel ID}`,
/// the IDs in upper-case hexadecimal.
pub open spec fn websocket_url_spec(domain: Seq<char>, routing_id: Seq<u8>, tunnel_id: Seq<u8>) -> Seq<char> {
    seq!['w', 's', 's', ':', '/', '/'] + domain + seq!['/', 'c', 'a', 'b', 'l', 'e', '/', 'c', 'o', 'n', 'n', 'e', 'c', 't', '/']
        + hex_spec(routing_id) + seq!['/'] + hex_spec(tunnel_id)
}

/// The WebSocket URL for an EID `e` (whose tunnel server is known) under tunnel ID
/// `tunnel_id`: the tunnel's URL for WebSockets, and empty for other transports.
pub open spec fn eid_websocket_url(e: Eid, tunnel_id: Seq<u8>) -> Seq<char> {
    if e.transport == TRANSPORT_WEBSOCKETS {
        websocket_url_spec(tunnel_server_domain(e.tunnel_server_id)->Some_0, e.routing_id@, tunnel_id)
    } else {
        Seq::empty()
    }
}

/// The initiator's discovery session.
pub struct InitiatorSession {
    /// Request parameters, set by the initiator.
    params: Params,
    /// The public key of the initiator's random identity key pair, as a compressed P-256
    /// point.
    local_identity_public: [u8; 33],
    /// The unencrypted EID of the authenticator that was found.
    eid: Option<Eid>,
    /// The WebSocket URL of the authenticator that was found.
    websocket_url: String,
    /// The Noise pre-shared key, once an authenticator has been found.
    psk: Option<[u8; 32]>,
}

/// What an [`InitiatorSession`] holds.
pub struct InitiatorSessionView {
    pub params: ParamsView,
    pub local_identity_public: Seq<u8>,
    pub eid: Option<Eid>,
    pub websocket_url: Seq<char>,
    pub psk: Option<Seq<u8>>,
}

impl View for InitiatorSession {
    type V = InitiatorSessionView;

    closed spec fn view(&self) -> InitiatorSessionView {
        InitiatorSessionView {
            params: self.params@,
            local_identity_public: self.local_identity_public@,
            eid: self.eid,
            websocket_url: self.websocket_url@,
            psk: match self.psk {
                Some(k) => Some(k@),
                None => None,
            },
        }
    }
}

/// A well-formed initiator session: its identity key is a compressed point; before an
/// authenticator is found it has no pre-shared key and no WebSocket URL; once one is found,
/// its EID names a known tunnel server, there is a pre-shared key, and the WebSocket URL is
/// the one for that EID under the session's tunnel ID.
pub open spec fn session_wf(v: InitiatorSessionView) -> bool {
    &&& is_compressed_sec1(v.local_identity_public)
    &&& v.params.shared_secret.len() == 16
    &&& match v.eid {
        None => v.psk is None && v.websocket_url == Seq::<char>::empty(),
        Some(e) => {
            &&& tunnel_server_domain(e.tunnel_server_id) is Some
            &&& v.psk is Some
            &&& v.websocket_url == eid_websocket_url(e, v.params.tunnel_id())
        },
    }
}

impl InitiatorSession {
    /// The session is well formed (see [`session_wf`]).
    pub open spec fn wf(&self) -> bool {
        session_wf(self@)
    }

    /// A new session with `params`, for the identity key pair whose compressed public key
    /// is `local_identity_public`.
    ///
    /// Fails with [`Error::InvalidArgument`] when `local_identity_public` is not a
    /// compressed P-256 point.
    pub fn new_with_params(params: Params, local_identity_public: [u8; 33]) -> (r: Result<Self>)
        ensures
            !is_compressed_sec1(local_identity_public@) ==> r == Err::<Self, Error>(
                Error::InvalidArgument,
            ),
            is_compressed_sec1(local_identity_public@) ==> r is Ok && r->Ok_0.wf() && r->Ok_0@
                == (InitiatorSessionView {
                params: params@,
                local_identity_public: local_identity_public@,
                eid: None,
                websocket_url: Seq::empty(),
                psk: None,
            }),
    {
        if local_identity_public[0] != 2 && local_identity_public[0] != 3 {
            return Err(Error::InvalidArgument);
        }
        proof {
            params.lemma_secret_len();
        }
        Ok(InitiatorSession {
            params,
            local_identity_public,
            eid: None,
            websocket_url: String::new(),
            psk: None,
        })
    }

    /// The request parameters.
    pub fn params(&self) -> (r: &Params)
        ensures
            r@ == self@.params,
    {
        &self.params
    }

    /// The compressed public key of the initiator's identity key pair.
    pub fn local_identity_public(&self) -> (r: [u8; 33])
        ensures
            r@ == self@.local_identity_public,
    {
        self.local_identity_public
    }

    /// Sets the number of known tunnel server domains.
    pub fn set_known_domain_count(&mut self, v: u16)
        requires
            old(self).wf(),
        ensures
            final(self).wf(),
            final(self)@ == (InitiatorSessionView {
                params: ParamsView { known_domain_count: v, ..old(self)@.params },
                ..old(self)@
            }),
    {
        self.params.set_known_domain_count(v);
    }

    /// Sets the timestamp.
    pub fn set_timestamp(&mut self, v: u64)
        requires
            old(self).wf(),
        ensures
            final(self).wf(),
            final(self)@ == (InitiatorSessionView {
                params: ParamsView { timestamp: v, ..old(self)@.params },
                ..old(self)@
            }),
    {
        self.params.set_timestamp(v);
    }

    /// Sets whether state-assisted transactions are supported.
    pub fn set_supports_state_assisted_transactions(&mut self, v: bool)
        requires
            old(self).wf(),
        ensures
            final(self).wf(),
            final(self)@ == (InitiatorSessionView {
                params: ParamsView { supports_state_assisted_transactions: v, ..old(self)@.params },
                ..old(self)@
            }),
    {
        self.params.set_supports_state_assisted_transactions(v);
    }

    /// Sets the request type.
    pub fn set_request_type(&mut self, v: String)
        requires
            old(self).wf(),
        ensures
            final(self).wf(),
            final(self)@ == (InitiatorSessionView {
                params: ParamsView { request_type: v@, ..old(self)@.params },
                ..old(self)@
            }),
    {
        self.params.set_request_type(v);
    }

    /// Sets whether WebSockets are supported as a transport channel.
    pub fn set_supports_websocket_transport(&mut self, v: bool)
        requires
            old(self).wf(),
        ensures
            final(self).wf(),
            final(self)@ == (InitiatorSessionView {
                params: ParamsView { supports_websocket_transport: v, ..old(self)@.params },
                ..old(self)@
            }),
    {
        self.params.set_supports_websocket_transport(v);
    }

    /// Sets whether BLE L2CAP is supported as a transport channel.
    pub fn set_supports_l2cap_transport(&mut self, v: bool)
        requires
            old(self).wf(),
        ensures
            final(self).wf(),
            final(self)@ == (InitiatorSessionView {
                params: ParamsView { supports_l2cap_transport: v, ..old(self)@.params },
                ..old(self)@
            }),
    {
        self.params.set_supports_l2cap_transport(v);
    }

    /// Returns `true` if an [`Eid`] has been decrypted, and this initiator session is ready
    /// to connect to the authenticator over its preferred transport.
    pub fn found_authenticator(&self) -> (r: bool)
        ensures
            r == self@.eid is Some,
    {
        self.eid.is_some()
    }

    /// The WebSocket URL that the initiator can connect to the authenticator on.
    ///
    /// Empty if no authenticator has been found, or if the last decrypted EID indicates
    /// that the authenticator has chosen a different transport; otherwise
    /// `wss://{domain}/cable/connect/{routing ID}/{tunnel ID}` for the last decrypted EID.
    pub fn websocket_url(&self) -> (r: &str)
        requires
            self.wf(),
        ensures
            r@ == match self@.eid {
                None => Seq::<char>::empty(),
                Some(e) => eid_websocket_url(e, self@.params.tunnel_id()),
            },
    {
        self.websocket_url.as_str()
    }

    /// The last decrypted EID.
    pub fn eid(&self) -> (r: Option<&Eid>)
        ensures
            match r {
                Some(e) => self@.eid == Some(*e),
                None => self@.eid is None,
            },
    {
        self.eid.as_ref()
    }

    /// Serialize the parameters and the local identity's public key as CBOR.
    fn params_as_cbor(&self) -> (r: Result<Vec<u8>>)
        requires
            self.wf(),
        ensures
            match qr_map_spec(self@.params, self@.local_identity_public) {
                None => r == Err::<Vec<u8>, Error>(Error::InvalidArgument),
                Some(m) => match cbor_encoded(m) {
                    None => r == Err::<Vec<u8>, Error>(Error::Internal),
                    Some(b) => r is Ok && r->Ok_0@ == b,
                },
            },
            r matches Ok(b) ==> b@.len() > 0 && cbor_decoded(b@) == qr_map_spec(
                self@.params,
                self@.local_identity_public,
            ),
    {
        let p = &self.params;
        let v_ws = p.supports_websocket_transport();
        let v_l2 = p.supports_l2cap_transport();
        let v_kdc = p.known_domain_count();
        let v_ts = p.timestamp();
        let v_sats = p.supports_state_assisted_transactions();
        let v_rt = p.request_type();
        if v_rt.unicode_len() == 0 {
            return Err(Error::InvalidArgument);
        }
        let mut transports: Option<CborValue> = None;
        let ghost mut tr: Option<CborItem> = None;
        if v_l2 || !v_ws {
            let mut supported_transports: Vec<CborValue> = Vec::new();
            if v_ws {
                supported_transports.push(CborValue::Integer(TRANSPORT_WEBSOCKETS as i128));
            }
            if v_l2 {
                supported_transports.push(CborValue::Integer(TRANSPORT_L2CAP as i128));
            }
            if supported_transports.len() == 0 {
                assert(transports_item(p@) is None) by {
                    assert(!v_ws && !v_l2);
                }
                return Err(Error::InvalidArgument);
            }
            let ghost items = array_items(supported_transports);
            let t = CborValue::Array(supported_transports);
            proof {
                assert(t.item()->Array_0 =~= items);
                let ws: Seq<CborItem> = if v_ws {
                    seq![CborItem::Integer(0)]
                } else {
                    Seq::empty()
                };
                let l2: Seq<CborItem> = if v_l2 {
                    seq![CborItem::Integer(1)]
                } else {
                    Seq::empty()
                };
                assert(items =~= ws + l2);
                tr = Some(t.item());
                assert(transports_item(p@) == Some(tr));
            }
            transports = Some(t);
        }
        assert(transports_item(p@) == Some(tr));
        assert(match transports { Some(t) => tr == Some(t.item()), None => tr is None });
        let mut m: Vec<(CborValue, CborValue)> = Vec::new();
        let ghost mut es: Seq<(CborItem, CborItem)> = Seq::empty();
        let pk = CborValue::Bytes(to_vec(self.local_identity_public.as_slice()));
        assert(pk.item() == CborItem::Bytes(self.local_identity_public@));
        m.push((CborValue::Integer(KEY_PUBKEY), pk));
        let ss = CborValue::Bytes(to_vec(p.shared_secret().as_slice()));
        assert(ss.item() == CborItem::Bytes(p@.shared_secret));
        m.push((CborValue::Integer(KEY_SHARED_SECRET), ss));
        m.push((CborValue::Integer(KEY_KNOWN_DOMAIN_COUNT), CborValue::Integer(v_kdc as i128)));
        proof {
            es = seq![
                (CborItem::Integer(0), CborItem::Bytes(self.local_identity_public@)),
                (CborItem::Integer(1), CborItem::Bytes(p@.shared_secret)),
                (CborItem::Integer(2), CborItem::Integer(v_kdc as int)),
            ];
            assert(entries_items(m) =~= es);
        }
        if v_ts != 0 {
            m.push((CborValue::Integer(KEY_TIMESTAMP), CborValue::Integer(v_ts as i128)));
            proof {
                es = es + seq![(CborItem::Integer(3), CborItem::Integer(v_ts as int))];
                assert(entries_items(m) =~= es);
            }
        }
        m.push((CborValue::Integer(KEY_SUPPORTS_STATE_ASSISTED_TRANSACTIONS), CborValue::Bool(v_sats)));
        let rt = CborValue::Text(String::from_str(v_rt));
        assert(rt.item() == CborItem::Text(v_rt@));
        m.push((CborValue::Integer(KEY_REQUEST_TYPE), rt));
        proof {
            es = es + seq![
                (CborItem::Integer(4), CborItem::Bool(v_sats)),
                (CborItem::Integer(5), CborItem::Text(v_rt@)),
            ];
            assert(entries_items(m) =~= es);
        }
        match transports {
            Some(t) => {
                let ghost ti = t.item();
                m.push((CborValue::Integer(KEY_SUPPORTED_TRANSPORTS), t));
                proof {
                    es = es + seq![(CborItem::Integer(6), ti)];
                    assert(entries_items(m) =~= es);
                }
            },
            None => {},
        }
        let ghost entries = m;
        let v = CborValue::Entries(m);
        proof {
            assert(v.item()->Entries_0 =~= entries_items(entries));
            assert(qr_map_spec(p@, self.local_identity_public@) == Some(CborItem::Entries(es)));
            lemma_qr_map_canonical(p@, self.local_identity_public@);
        }
        match cbor_encode_packed(&v) {
            Some(b) => Ok(b),
            None => Err(Error::Internal),
        }
    }
}

/// The EID that the initiator accepts from an advertisement: the first four bytes of the
/// HMAC of the encrypted block under the EID signing key must match the last four bytes of
/// `encrypted_eid`; the block must have been decrypted; it must parse (see
/// [`eid_from_block_spec`]); and its tunnel server must be known. Gives the EID, its
/// decrypted block and its tunnel server domain.
pub open spec fn accepted_eid(
    p: ParamsView,
    encrypted_eid: Seq<u8>,
    suffix: Option<Seq<u8>>,
    decrypted: Option<Seq<u8>>,
) -> Option<(Eid, Seq<u8>, Seq<char>)> {
    if hmac_spec(p.eid_signing_key(), encrypted_eid.subrange(0, 16)).subrange(0, 4)
        != encrypted_eid.subrange(16, 20) {
        None
    } else {
        match decrypted {
            None => None,
            Some(block) => match eid_from_block_spec(block, suffix) {
                None => None,
                Some(e) => match tunnel_server_domain(e.tunnel_server_id) {
                    None => None,
                    Some(d) => Some((e, block, d)),
                },
            },
        }
    }
}

/// What trial decryption of an advertisement does to an initiator session `old`, giving
/// `new` and the result `r`: `r` says whether the EID was accepted (see [`accepted_eid`]);
/// when it was not, the session is unchanged; when it was, the session records the EID, the
/// pre-shared key derived from its block and, for WebSockets, the tunnel's URL.
pub open spec fn trial_decrypt_spec(
    old: InitiatorSessionView,
    new: InitiatorSessionView,
    encrypted_eid: Seq<u8>,
    suffix: Option<Seq<u8>>,
    decrypted: Option<Seq<u8>>,
    r: bool,
) -> bool {
    let acc = accepted_eid(old.params, encrypted_eid, suffix, decrypted);
    &&& r == acc is Some
    &&& !r ==> new == old
    &&& acc matches Some((e, block, d)) ==> {
        &&& new.params == old.params
        &&& new.local_identity_public == old.local_identity_public
        &&& new.eid == Some(e)
        &&& new.psk == Some(derive_spec(KeyPurpose::Psk, old.params.shared_secret, block, 32))
        &&& new.websocket_url == eid_websocket_url(e, old.params.tunnel_id())
    }
}

/// The QR code parameters that an initiator publishes.
pub open spec fn published_params(p: ParamsView, pubkey: Seq<u8>) -> QrParams {
    QrParams {
        shared_secret: p.shared_secret,
        peer_identity: pubkey,
        known_domain_count: p.known_domain_count,
        timestamp: p.timestamp,
        supports_state_assisted_transactions: p.supports_state_assisted_transactions,
        request_type: p.request_type,
        supports_websocket_transport: p.supports_websocket_transport,
        supports_l2cap_transport: p.supports_l2cap_transport,
    }
}

/// The QR code map is canonical, and reading its parameters gives the published ones.
pub proof fn lemma_qr_map_canonical(p: ParamsView, pubkey: Seq<u8>)
    requires
        qr_map_spec(p, pubkey) is Some,
        is_compressed_sec1(pubkey),
        p.shared_secret.len() == 16,
    ensures
        cbor_canonical_map(qr_map_spec(p, pubkey)->Some_0),
        qr_params(qr_map_spec(p, pubkey)->Some_0->Entries_0) == Some(published_params(p, pubkey)),
{
    let m = qr_map_spec(p, pubkey)->Some_0;
    let es = m->Entries_0;
    assert(forall|k: int| 0 <= k < es.len() ==> (#[trigger] small_key(es[k])) is Some && cbor_flat(es[k].1));
    assert(forall|k: int, l: int| 0 <= k < l < es.len() ==> small_key(#[trigger] es[k])->Some_0 < small_key(#[trigger] es[l])->Some_0);
    reveal_with_fuel(lookup, 8);
    reveal_with_fuel(scan_transports, 3);
    match transports_item(p) {
        Some(Some(a)) => {
            assert(lookup(es, 6) == Some(a));
        },
        _ => {
            assert(lookup(es, 6) is None);
        },
    }
}

/// An authenticator that reads an initiator's QR code gets the initiator's request: when
/// the bytes `url` carry the parameters that an initiator with parameters `p` and
/// compressed identity key `pubkey` publishes (as [`InitiatorSession::qr_url`] ensures of
/// its URL's UTF-8 bytes), reading `url` gives the same secret, hence the same tunnel ID and
/// EID keys, the same request parameters, and `pubkey` as the initiator's identity; a
/// session started from it holds them (see
/// [`crate::discovery::authenticator_session::session_from_qr_spec`]).
pub proof fn lemma_qr_code_propagates_params(
    p: ParamsView,
    pubkey: Seq<u8>,
    url: Seq<u8>,
    r: Result<QrCode>,
)
    requires
        qr_url_params(url) == Some(published_params(p, pubkey)),
        qr_code_spec(url, r),
    ensures
        r is Ok,
        r->Ok_0@.params == p,
        r->Ok_0@.params.tunnel_id() == p.tunnel_id(),
        r->Ok_0@.params.eid_encryption_key() == p.eid_encryption_key(),
        r->Ok_0@.params.eid_signing_key() == p.eid_signing_key(),
        r->Ok_0@.peer_identity == pubkey,
{
}

impl InitiatorSession {
    /// Get the QR code URL (`FIDO:/`) for the authenticator to discover the initiator.
    ///
    /// Fails with [`Error::InvalidArgument`] when no request type is set, or no transport
    /// is supported.
    pub fn qr_url(&self) -> (r: Result<String>)
        requires
            self.wf(),
        ensures
            match qr_url_spec(self@.params, self@.local_identity_public) {
                Err(e) => r == Err::<String, Error>(e),
                Ok(u) => r is Ok && r->Ok_0@ == ascii_chars(u) && encode_utf8(r->Ok_0@) == u,
            },
            qr_url_spec(self@.params, self@.local_identity_public) matches Ok(u) ==> qr_url_params(u)
                == Some(published_params(self@.params, self@.local_identity_public)),
    {
        let cbor = self.params_as_cbor()?;
        proof {
            lemma_encode_all_digits(cbor@);
            lemma_qr_url_utf8(encode_spec(cbor@));
            lemma_decode_encode(cbor@);
            lemma_qr_map_canonical(self@.params, self@.local_identity_public);
            lemma_encode_nonempty(cbor@);
            let u = qr_protocol() + encode_spec(cbor@);
            assert(u.subrange(0, 6) =~= qr_protocol());
            assert(u.subrange(6, u.len() as int) =~= encode_spec(cbor@));
        }
        let digits = encode(cbor.as_slice());
        proof {
            lemma_encode_all_digits(cbor@);
        }
        let prefix = "FIDO:/";
        let decimal = "0123456789";
        proof {
            reveal_strlit("FIDO:/");
            reveal_strlit("0123456789");
        }
        let mut r = String::from_str(prefix);
        assert(r@ =~= ascii_chars(qr_protocol()));
        let mut i: usize = 0;
        while i < digits.len()
            invariant
                i <= digits@.len(),
                all_digits(digits@),
                decimal@ == seq!['0', '1', '2', '3', '4', '5', '6', '7', '8', '9'],
                r@ =~= ascii_chars(qr_protocol() + digits@.subrange(0, i as int)),
            decreases digits@.len() - i,
        {
            let d = (digits[i] - 48) as usize;
            assert(48 <= digits@[i as int] <= 57);
            r.append(decimal.substring_char(d, d + 1));
            i += 1;
            assert(r@ =~= ascii_chars(qr_protocol() + digits@.subrange(0, i as int)));
        }
        assert(digits@.subrange(0, digits@.len() as int) =~= digits@);
        Ok(r)
    }

    /// Try to decrypt a BLE advertisement sent by an authenticator (`trialDecrypt`).
    ///
    /// * `encrypted_eid`: Encrypted EID beacon: the encrypted block, then a signature.
    /// * `suffix`: BLE extended advertising suffix, used by the authenticator to signal
    ///   which transport channel it selected. This is a CBOR map.
    /// * `decrypted`: the first 16 bytes of `encrypted_eid` decrypted with AES-256-CBC
    ///   (zero IV) under the EID encryption key, or `None` when that failed.
    ///
    /// On success this records the EID, the pre-shared key and the WebSocket URL, and
    /// returns `true`; otherwise the session is unchanged.
    pub fn try_decrypt_eid(
        &mut self,
        encrypted_eid: &[u8; 20],
        suffix: Option<&[u8]>,
        decrypted: Option<[u8; 16]>,
    ) -> (r: bool)
        requires
            old(self).wf(),
        ensures
            final(self).wf(),
            trial_decrypt_spec(
                old(self)@,
                final(self)@,
                encrypted_eid@,
                match suffix {
                    Some(s) => Some(s@),
                    None => None,
                },
                match decrypted {
                    Some(d) => Some(d@),
                    None => None,
                },
                r,
            ),
            r <==> {
                &&& encrypted_eid@.subrange(16, 20) == hmac_spec(
                    old(self)@.params.eid_signing_key(),
                    encrypted_eid@.subrange(0, 16),
                ).subrange(0, 4)
                &&& decrypted matches Some(b)
                &&& eid_from_block_spec(
                    b@,
                    match suffix {
                        Some(s) => Some(s@),
                        None => None,
                    },
                ) matches Some(e)
                &&& tunnel_server_domain(e.tunnel_server_id) is Some
            },
    {
        let signature = hmac(self.params.eid_key().signing_key.as_slice(), &encrypted_eid.as_slice()[0..16]);
        if !bytes_eq(&signature.as_slice()[0..4], &encrypted_eid.as_slice()[16..20]) {
            // Invalid signature
            return false;
        }
        let block = match decrypted {
            Some(b) => b,
            None => return false,
        };
        let eid = match Eid::from_decrypted_bytes(&block, suffix) {
            Some(e) => e,
            None => return false,
        };
        let domain = match decode_tunnel_server_id(eid.tunnel_server_id) {
            Some(d) => d,
            None => return false,
        };
        let psk_bytes = match KeyPurpose::Psk.derive(self.params.shared_secret().as_slice(), block.as_slice(), 32) {
            Ok(p) => p,
            Err(_) => return false,
        };
        let psk = crate::bytes::to_array32(psk_bytes.as_slice());
        self.psk = Some(psk);
        if eid.transport == TRANSPORT_WEBSOCKETS {
            let routing_id = hex(eid.routing_id.as_slice());
            let tunnel_id = self.params.tunnel_id().encode_hex();
            let mut url = String::from_str("wss://");
            proof {
                reveal_strlit("wss://");
                reveal_strlit("/cable/connect/");
                reveal_strlit("/");
            }
            url.append(domain.as_str());
            url.append("/cable/connect/");
            url.append(routing_id.as_str());
            url.append("/");
            url.append(tunnel_id.as_str());
            assert(url@ =~= websocket_url_spec(domain@, eid.routing_id@, self@.params.tunnel_id()));
            self.websocket_url = url;
        } else {
            self.websocket_url = String::new();
        }
        self.eid = Some(eid);
        true
    }

    /// Trial decryption of an advertisement given as a byte string of any length, as
    /// `nsICtapCableInitiatorDiscoverySession.tryDecryptEID` receives it; see
    /// [`Self::try_decrypt_eid`].
    ///
    /// An advertisement that is not 20 bytes long is not accepted: this returns `false` and
    /// leaves the session unchanged.
    pub fn try_decrypt_eid_bytes(
        &mut self,
        encrypted_eid: &[u8],
        suffix: Option<&[u8]>,
        decrypted: Option<[u8; 16]>,
    ) -> (r: bool)
        requires
            old(self).wf(),
        ensures
            final(self).wf(),
            encrypted_eid@.len() != 20 ==> !r && final(self)@ == old(self)@,
            encrypted_eid@.len() == 20 ==> trial_decrypt_spec(
                old(self)@,
                final(self)@,
                encrypted_eid@,
                match suffix {
                    Some(s) => Some(s@),
                    None => None,
                },
                match decrypted {
                    Some(d) => Some(d@),
                    None => None,
                },
                r,
            ),
            encrypted_eid@.len() == 20 ==> (r <==> {
                &&& encrypted_eid@.subrange(16, 20) == hmac_spec(
                    old(self)@.params.eid_signing_key(),
                    encrypted_eid@.subrange(0, 16),
                ).subrange(0, 4)
                &&& decrypted matches Some(b)
                &&& eid_from_block_spec(
                    b@,
                    match suffix {
                        Some(s) => Some(s@),
                        None => None,
                    },
                ) matches Some(e)
                &&& tunnel_server_domain(e.tunnel_server_id) is Some
            }),
    {
        if encrypted_eid.len() != 20 {
            // An incorrect length is no error.
            return false;
        }
        let mut a = [0u8; 20];
        let mut i: usize = 0;
        while i < 20
            invariant
                i <= 20,
                encrypted_eid@.len() == 20,
                a@.len() == 20,
                forall|j: int| 0 <= j < i ==> a@[j] == encrypted_eid@[j],
            decreases 20 - i,
        {
            a[i] = encrypted_eid[i];
            i += 1;
        }
        assert(a@ =~= encrypted_eid@);
        self.try_decrypt_eid(&a, suffix, decrypted)
    }

    /// The pre-shared key for the Noise handshake with the authenticator that was found
    /// (`as_handshake`); the caller starts a `KNpsk0` handshake with it and the identity
    /// key pair.
    ///
    /// Fails with [`Error::InvalidState`] when no authenticator has been found.
    pub fn handshake_psk(&self) -> (r: Result<[u8; 32]>)
        ensures
            match self@.psk {
                Some(k) => r is Ok && r->Ok_0@ == k,
                None => r == Err::<[u8; 32], Error>(Error::InvalidState),
            },
    {
        match self.psk {
            Some(k) => Ok(k),
            None => Err(Error::InvalidState),
        }
    }
}

/// An initiator finds the authenticator that scanned its QR code: when both hold the same
/// QR secret with the keys derived from it, the authenticator advertises a WebSockets EID
/// `e` whose tunnel server is known (as [`Eid::new`] ensures) by encrypting its block to
/// `encrypted`, and decrypting `encrypted` gives the block back, then the initiator's trial
/// decryption of the advertisement accepts `e`, and both derive the same pre-shared key
/// from the block.
pub proof fn lemma_discovery_websocket(
    authenticator: ParamsView,
    initiator: ParamsView,
    e: Eid,
    encrypted: Seq<u8>,
)
    requires
        authenticator.shared_secret == initiator.shared_secret,
        e.transport == TRANSPORT_WEBSOCKETS,
        tunnel_server_domain(e.tunnel_server_id) is Some,
        encrypted.len() == 16,
    ensures
        ({
            let block = eid_bytes_spec(e)->Some_0;
            let adv = advertisement_spec(authenticator.eid_signing_key(), encrypted, Seq::empty());
            &&& adv.len() == 20
            &&& accepted_eid(initiator, adv, None, Some(block)) matches Some((e2, b2, _))
            &&& e2 == e
            &&& b2 == block
            &&& derive_spec(KeyPurpose::Psk, authenticator.shared_secret, block, 32)
                == derive_spec(KeyPurpose::Psk, initiator.shared_secret, block, 32)
        }),
{
    lemma_eid_block_fields(e);
    let block = eid_block(e);
    let sig = hmac_spec(authenticator.eid_signing_key(), encrypted);
    let adv = advertisement_spec(authenticator.eid_signing_key(), encrypted, Seq::empty());
    assert(sig.len() >= 4) by {
        crate::hash::lemma_hmac_len(authenticator.eid_signing_key(), encrypted);
    }
    assert(adv.subrange(0, 16) =~= encrypted);
    assert(adv.subrange(16, 20) =~= sig.subrange(0, 4));
}

/// An initiator finds the authenticator that scanned its QR code, over any transport: when
/// both hold the same QR secret with the keys derived from it, and the authenticator
/// advertises an EID `e` whose tunnel server is known by encrypting the block `block` to
/// `encrypted`, sending the extended advertisement suffix `suffix` (if any) from which, with
/// the block, `e` is read back (as [`AuthenticatorSession::prepare_encrypt_eid`] ensures,
/// with [`crate::discovery::authenticator_session::suffix_sent`]), and
/// decrypting `encrypted` gives the block back, then the initiator's trial decryption of the
/// advertisement accepts `e`, and both derive the same pre-shared key from the block.
pub proof fn lemma_discovery_accepts_eid(
    authenticator: ParamsView,
    initiator: ParamsView,
    e: Eid,
    block: Seq<u8>,
    suffix: Option<Seq<u8>>,
    encrypted: Seq<u8>,
)
    requires
        authenticator.shared_secret == initiator.shared_secret,
        tunnel_server_domain(e.tunnel_server_id) is Some,
        eid_from_block_spec(block, suffix) == Some(e),
        encrypted.len() == 16,
    ensures
        ({
            let adv = advertisement_spec(authenticator.eid_signing_key(), encrypted, Seq::empty());
            &&& adv.len() == 20
            &&& accepted_eid(initiator, adv, suffix, Some(block)) matches Some((e2, b2, _))
            &&& e2 == e
            &&& b2 == block
            &&& derive_spec(KeyPurpose::Psk, authenticator.shared_secret, block, 32)
                == derive_spec(KeyPurpose::Psk, initiator.shared_secret, block, 32)
        }),
{
    let sig = hmac_spec(authenticator.eid_signing_key(), encrypted);
    let adv = advertisement_spec(authenticator.eid_signing_key(), encrypted, Seq::empty());
    assert(sig.len() >= 4) by {
        crate::hash::lemma_hmac_len(authenticator.eid_signing_key(), encrypted);
    }
    assert(adv.subrange(0, 16) =~= encrypted);
    assert(adv.subrange(16, 20) =~= sig.subrange(0, 4));
}

} // verus!
