//! Noise `KNpsk0` and `NKpsk0` handshakes over P-256, AES-256-GCM and SHA-256.
//!
//! The key pairs live with the caller, which performs key generation, Diffie-Hellman and
//! the AEAD; each step here takes what those operations returned, advances the symmetric
//! state, and says what the caller is to do next. Which local key pair meets which public
//! key in each Diffie-Hellman operation is decided here too (see [`DhRequest`]).

use crate::bytes::{append, concat, to_vec};
use crate::cipher::AeadRequest;
use crate::cipher_state::{
    advanced, complete_encrypt_spec, decrypt_outcome, encrypt_outcome,
    lemma_complete_decrypt, lemma_complete_encrypt, prepare_decrypt_spec, prepare_encrypt_spec,
};
use crate::channel::Channel;
use crate::ec::{der_header_spec, is_uncompressed_sec1, sec1_ec2_key_to_der, to_array65, P256_X962_LENGTH};
use crate::error::{Error, Result};
use crate::hash::HASH_LEN;
use crate::symmetric_state::{
    split_view, sym_initialize, sym_mix_hash, sym_mix_key, sym_mix_key_and_hash, SymmetricState,
    SymmetricView,
};
use vstd::prelude::*;

pub use crate::handshake_type::HandshakeType;

verus! {

/// What a [`HandshakeState`] holds.
pub struct HandshakeView {
    /// The symmetric state.
    pub ss: SymmetricView,
    /// Whether the local party has a static key pair.
    pub has_local_identity: bool,
    /// The remote party's static public key, when it is known in advance.
    pub peer_pub: Option<Seq<u8>>,
    /// The local ephemeral public key, once generated.
    pub ephemeral_pub: Seq<u8>,
    /// The ciphertext of the peer's last message, which awaits opening.
    pub pending: Seq<u8>,
    /// The remote party's ephemeral public key, once received.
    pub peer_ephemeral: Option<Seq<u8>>,
}

/// The symmetric state after the pre-message pattern and the pre-shared key:
/// `InitializeSymmetric`, `MixHash(marker)`, `MixHash(static key)`, `MixKeyAndHash(psk)`.
pub open spec fn premessage(ht: HandshakeType, marker: u8, static_pub: Seq<u8>, psk: Seq<u8>) -> SymmetricView {
    sym_mix_key_and_hash(
        sym_mix_hash(sym_mix_hash(sym_initialize(ht), seq![marker]), static_pub),
        psk,
    )
}

/// The `e` token: `MixHash(e)` then, for a PSK handshake, `MixKey(e)`.
pub open spec fn mix_ephemeral(s: SymmetricView, e: Seq<u8>) -> SymmetricView {
    sym_mix_key(sym_mix_hash(s, e), e)
}

/// `MixKey(dh)` when a Diffie-Hellman output is due, and no change otherwise.
pub open spec fn mix_optional(s: SymmetricView, dh: Option<Seq<u8>>) -> SymmetricView {
    match dh {
        Some(d) => sym_mix_key(s, d),
        None => s,
    }
}

/// Maps an optional byte slice to its view.
pub open spec fn opt_view(o: Option<&[u8]>) -> Option<Seq<u8>> {
    match o {
        Some(s) => Some(s@),
        None => None,
    }
}

/// A handshake message, split: the sender's ephemeral point, its DER form for importing,
/// and the ciphertext that follows it.
pub struct PeerMessage {
    /// The uncompressed SEC 1 point.
    pub point: [u8; P256_X962_LENGTH],
    /// `point` in DER format.
    pub der: Vec<u8>,
    /// The ciphertext after the point.
    pub ciphertext: Vec<u8>,
}

/// Splits a handshake message into the sender's ephemeral point and the ciphertext after it.
///
/// Fails with [`Error::InvalidArgument`] when the message is shorter than a point, or the
/// point is not in uncompressed form.
pub fn split_handshake_message(message: &[u8]) -> (r: Result<PeerMessage>)
    ensures
        message@.len() < 65 ==> r == Err::<PeerMessage, Error>(Error::InvalidArgument),
        message@.len() >= 65 && message@[0] != 4 ==> r == Err::<PeerMessage, Error>(Error::InvalidArgument),
        message@.len() >= 65 && message@[0] == 4 ==> {
            &&& r is Ok
            &&& r->Ok_0.point@ == message@.subrange(0, 65)
            &&& r->Ok_0.der@ == der_header_spec() + message@.subrange(0, 65)
            &&& r->Ok_0.ciphertext@ == message@.subrange(65, message@.len() as int)
        },
{
    if message.len() < P256_X962_LENGTH {
        return Err(Error::InvalidArgument);
    }
    let point = to_array65(&message[0..P256_X962_LENGTH]);
    let der = sec1_ec2_key_to_der(&point)?;
    let ciphertext = to_vec(&message[P256_X962_LENGTH..message.len()]);
    Ok(PeerMessage { point, der, ciphertext })
}

/// Which local key pair a Diffie-Hellman operation uses.
#[derive(Debug, Clone, Copy, PartialEq, Eq, Structural)]
pub enum LocalKey {
    /// The local ephemeral key pair of this handshake.
    Ephemeral,
    /// The local static (identity) key pair.
    Static,
}

/// A Diffie-Hellman operation for the caller to perform: the private key of the local key
/// pair `local` with the public point `peer` (uncompressed).
pub struct DhRequest {
    pub local: LocalKey,
    pub peer: [u8; P256_X962_LENGTH],
}

/// `r` is the Diffie-Hellman operation of the local key pair `local` with `peer`.
pub open spec fn is_dh(r: DhRequest, local: LocalKey, peer: Seq<u8>) -> bool {
    r.local == local && r.peer@ == peer
}

/// The Diffie-Hellman operations that a handshake message calls for, when the message
/// starts with an uncompressed point `point`: the operation with the local ephemeral key,
/// and, when `with_static`, the operation with the local static key.
pub open spec fn point_dh(r: (DhRequest, Option<DhRequest>), point: Seq<u8>, with_static: bool) -> bool {
    &&& is_dh(r.0, LocalKey::Ephemeral, point)
    &&& with_static ==> (r.1 matches Some(d) && is_dh(d, LocalKey::Static, point))
    &&& !with_static ==> r.1 is None
}

/// A Noise handshake in progress, for either party.
pub struct HandshakeState {
    ss: SymmetricState,
    has_local_identity: bool,
    peer_pub: Option<[u8; P256_X962_LENGTH]>,
    ephemeral_pub: Vec<u8>,
    pending: Vec<u8>,
    peer_ephemeral: Option<[u8; P256_X962_LENGTH]>,
}

impl View for HandshakeState {
    type V = HandshakeView;

    closed spec fn view(&self) -> HandshakeView {
        HandshakeView {
            ss: self.ss@,
            has_local_identity: self.has_local_identity,
            peer_pub: match self.peer_pub {
                Some(p) => Some(p@),
                None => None,
            },
            ephemeral_pub: self.ephemeral_pub@,
            pending: self.pending@,
            peer_ephemeral: match self.peer_ephemeral {
                Some(p) => Some(p@),
                None => None,
            },
        }
    }
}

impl HandshakeState {
    /// The remote static public key in DER format, for the caller to import: `None` when
    /// there is no remote static key, and [`Error::InvalidArgument`] when it is not an
    /// uncompressed point.
    pub fn peer_public_der(&self) -> (r: Option<Result<Vec<u8>>>)
        ensures
            self@.peer_pub is None ==> r is None,
            self@.peer_pub matches Some(p) ==> (r matches Some(d) && (p[0] == 4 ==> d is Ok
                && d->Ok_0@ == der_header_spec() + p) && (p[0] != 4 ==> d == Err::<Vec<u8>, Error>(
                Error::InvalidArgument,
            ))),
    {
        match &self.peer_pub {
            None => None,
            Some(p) => Some(sec1_ec2_key_to_der(p)),
        }
    }

    /// Whether the local party has a static key pair.
    pub fn has_local_identity(&self) -> (r: bool)
        ensures
            r == self@.has_local_identity,
    {
        self.has_local_identity
    }

    /// The local ephemeral public key, once generated.
    pub fn ephemeral_public(&self) -> (r: &[u8])
        ensures
            r@ == self@.ephemeral_pub,
    {
        self.ephemeral_pub.as_slice()
    }

    /// The handshake hash.
    pub fn handshake_hash(&self) -> (r: [u8; HASH_LEN])
        ensures
            r@ == self@.ss.h,
    {
        self.ss.get_handshake_hash()
    }

    /// The Diffie-Hellman operation of the initiator's first message: for `NKpsk0`, the
    /// local ephemeral key with the remote static key (`es`); none for `KNpsk0`. Its output
    /// is `dh_es` of [`Self::initiator_message_request`].
    pub fn initiator_dh_request(&self) -> (r: Option<DhRequest>)
        ensures
            match self@.peer_pub {
                Some(p) => r matches Some(d) && is_dh(d, LocalKey::Ephemeral, p),
                None => r is None,
            },
    {
        match &self.peer_pub {
            Some(p) => Some(DhRequest { local: LocalKey::Ephemeral, peer: *p }),
            None => None,
        }
    }

    /// The Diffie-Hellman operations of the responder's message for the initiator: the
    /// local ephemeral key with the responder's ephemeral point (`ee`) and, when there is a
    /// local identity, the local static key with it (`se`). Their outputs are `dh_ee` and
    /// `dh_se` of [`Self::response_request`].
    ///
    /// Fails with [`Error::InvalidArgument`] when the message does not start with an
    /// uncompressed point.
    pub fn response_dh_requests(&self, peer_response_message: &[u8]) -> (r: Result<(DhRequest, Option<DhRequest>)>)
        ensures
            peer_response_message@.len() < 65 || peer_response_message@[0] != 4 ==> r
                == Err::<(DhRequest, Option<DhRequest>), Error>(Error::InvalidArgument),
            peer_response_message@.len() >= 65 && peer_response_message@[0] == 4 ==> r is Ok
                && point_dh(r->Ok_0, peer_response_message@.subrange(0, 65), self@.has_local_identity),
    {
        let msg = split_handshake_message(peer_response_message)?;
        let se = if self.has_local_identity {
            Some(DhRequest { local: LocalKey::Static, peer: msg.point })
        } else {
            None
        };
        Ok((DhRequest { local: LocalKey::Ephemeral, peer: msg.point }, se))
    }

    /// The Diffie-Hellman operation of the responder's handling of the initiator's message:
    /// with a local identity (`NKpsk0`), the local static key with the initiator's ephemeral
    /// point (`es`); none otherwise. Its output is `dh_es` of [`Self::responder_request`].
    ///
    /// Fails with [`Error::InvalidArgument`] when the message does not start with an
    /// uncompressed point.
    pub fn responder_dh_request(has_local_identity: bool, message: &[u8]) -> (r: Result<Option<DhRequest>>)
        ensures
            message@.len() < 65 || message@[0] != 4 ==> r == Err::<Option<DhRequest>, Error>(
                Error::InvalidArgument,
            ),
            message@.len() >= 65 && message@[0] == 4 ==> r is Ok && (has_local_identity ==> (
            r->Ok_0 matches Some(d) && is_dh(d, LocalKey::Static, message@.subrange(0, 65))))
                && (!has_local_identity ==> r->Ok_0 is None),
    {
        let msg = split_handshake_message(message)?;
        if has_local_identity {
            Ok(Some(DhRequest { local: LocalKey::Static, peer: msg.point }))
        } else {
            Ok(None)
        }
    }

    /// The Diffie-Hellman operations of the responder's response: its ephemeral key with
    /// the initiator's ephemeral point (`ee`) and, when the initiator's static key is known,
    /// with that key (`se`). Their outputs are `dh_ee` and `dh_se` of
    /// [`Self::responder_response_request`].
    ///
    /// Fails with [`Error::InvalidState`] before the initiator's message was received.
    pub fn responder_response_dh_requests(&self) -> (r: Result<(DhRequest, Option<DhRequest>)>)
        ensures
            self@.peer_ephemeral is None ==> r == Err::<(DhRequest, Option<DhRequest>), Error>(
                Error::InvalidState,
            ),
            self@.peer_ephemeral matches Some(e) ==> r is Ok && is_dh(r->Ok_0.0, LocalKey::Ephemeral, e)
                && match self@.peer_pub {
                Some(p) => r->Ok_0.1 matches Some(d) && is_dh(d, LocalKey::Ephemeral, p),
                None => r->Ok_0.1 is None,
            },
    {
        let e = match &self.peer_ephemeral {
            Some(e) => *e,
            None => return Err(Error::InvalidState),
        };
        let se = match &self.peer_pub {
            Some(p) => Some(DhRequest { local: LocalKey::Ephemeral, peer: *p }),
            None => None,
        };
        Ok((DhRequest { local: LocalKey::Ephemeral, peer: e }, se))
    }

    /// Start a Noise `KNpsk0` or `NKpsk0` handshake as the initiating party.
    ///
    /// * `psk`: pre-shared key, negotiated out-of-band
    /// * `has_local_identity`: whether the initiator has a static key pair; `local_pub` is
    ///   its public key as NSS reports it (`None` when reading it failed)
    /// * `peer_pub`: the remote peer's static public key
    ///
    /// If `peer_pub` is set, this performs a `NKpsk0` handshake (state-assisted
    /// transaction). Otherwise it performs a `KNpsk0` handshake (QR-initiated transaction),
    /// and the local public key must be an uncompressed P-256 point. If neither a local
    /// identity nor `peer_pub` is given, this returns an error.
    ///
    /// Next, the caller generates an ephemeral key pair and calls
    /// [`Self::initiator_message_request`].
    pub fn initiator_start(
        psk: &[u8; 32],
        has_local_identity: bool,
        local_pub: Option<&[u8]>,
        peer_pub: Option<&[u8; P256_X962_LENGTH]>,
    ) -> (r: Result<Self>)
        ensures
            peer_pub matches Some(p) ==> (r is Ok && r->Ok_0@ == HandshakeView {
                ss: premessage(HandshakeType::NKpsk0, 0, p@, psk@),
                has_local_identity,
                peer_pub: Some(p@),
                ephemeral_pub: Seq::empty(),
                pending: Seq::empty(),
                peer_ephemeral: None,
            }),
            peer_pub is None && !has_local_identity ==> r == Err::<Self, Error>(Error::InvalidArgument),
            peer_pub is None && has_local_identity && local_pub is None ==> r == Err::<Self, Error>(Error::Failure),
            peer_pub is None && has_local_identity && local_pub is Some && !is_uncompressed_sec1(
                local_pub.unwrap()@,
            ) ==> r == Err::<Self, Error>(Error::InvalidArgument),
            peer_pub is None && has_local_identity && local_pub is Some && is_uncompressed_sec1(
                local_pub.unwrap()@,
            ) ==> (r is Ok && r->Ok_0@ == HandshakeView {
                ss: premessage(HandshakeType::KNpsk0, 1, local_pub.unwrap()@, psk@),
                has_local_identity,
                peer_pub: None,
                ephemeral_pub: Seq::empty(),
                pending: Seq::empty(),
                peer_ephemeral: None,
            }),
    {
        let mut ss;
        let mut stored_peer: Option<[u8; P256_X962_LENGTH]> = None;
        if let Some(peer_pub) = peer_pub {
            ss = SymmetricState::initialize_symmetric(HandshakeType::NKpsk0);
            let marker: [u8; 1] = [0];
            assert(marker@ =~= seq![0u8]);
            ss.mix_hash(marker.as_slice());
            ss.mix_hash(peer_pub.as_slice());
            stored_peer = Some(*peer_pub);
        } else if has_local_identity {
            let local_pub = match local_pub {
                Some(l) => l,
                None => return Err(Error::Failure),
            };
            if local_pub.len() != P256_X962_LENGTH || local_pub[0] != 4 {
                // Doesn't look like a raw P256 public key!
                return Err(Error::InvalidArgument);
            }
            ss = SymmetricState::initialize_symmetric(HandshakeType::KNpsk0);
            let marker: [u8; 1] = [1];
            assert(marker@ =~= seq![1u8]);
            ss.mix_hash(marker.as_slice());
            ss.mix_hash(local_pub);
        } else {
            // at least one of those arguments must be given
            return Err(Error::InvalidArgument);
        }
        ss.mix_key_and_hash(psk.as_slice())?;
        Ok(HandshakeState {
            ss,
            has_local_identity,
            peer_pub: stored_peer,
            ephemeral_pub: Vec::new(),
            pending: Vec::new(),
            peer_ephemeral: None,
        })
    }

    /// The initiator's first message, first step: mixes in the ephemeral public key
    /// `ephemeral_pub` and, for `NKpsk0`, the Diffie-Hellman output `dh_es` between the
    /// ephemeral private key and the peer's static key (imported from
    /// [`Self::peer_public_der`]); then returns the sealing request for the empty payload.
    ///
    /// Fails with [`Error::Failure`] when `dh_es` is due but missing.
    pub fn initiator_message_request(self, ephemeral_pub: &[u8], dh_es: Option<&[u8]>) -> (r: Result<
        (Self, AeadRequest),
    >)
        ensures
            self@.peer_pub is Some && dh_es is None ==> r == Err::<(Self, AeadRequest), Error>(
                Error::Failure,
            ),
            !(self@.peer_pub is Some && dh_es is None) ==> {
                let ss = mix_optional(
                    mix_ephemeral(self@.ss, ephemeral_pub@),
                    if self@.peer_pub is Some { opt_view(dh_es) } else { None },
                );
                &&& (r is Ok ==> r->Ok_0.0@ == HandshakeView {
                    ss,
                    ephemeral_pub: ephemeral_pub@,
                    ..self@
                })
                &&& prepare_encrypt_spec(ss.cs, ss.h, Seq::empty(), match r {
                    Ok(p) => Ok(p.1),
                    Err(e) => Err(e),
                })
            },
    {
        let mut s = self;
        s.ss.mix_hash(ephemeral_pub);
        s.ss.mix_key(ephemeral_pub)?;
        if s.peer_pub.is_some() {
            match dh_es {
                Some(dh) => {
                    s.ss.mix_key(dh)?;
                },
                None => return Err(Error::Failure),
            }
        }
        s.ephemeral_pub = to_vec(ephemeral_pub);
        let empty: [u8; 0] = [];
        assert(empty@ =~= Seq::<u8>::empty());
        let req = s.ss.prepare_encrypt_and_hash(empty.as_slice())?;
        Ok((s, req))
    }

    /// The initiator's first message, second step: from the sealing result, the message to
    /// send to the responder, which is the ephemeral public key followed by the ciphertext.
    pub fn initiator_message_complete(self, sealed: Option<Vec<u8>>) -> (r: Result<(Self, Vec<u8>)>)
        ensures
            match r {
                Err(e) => complete_encrypt_spec(self@.ss.cs, self@.ss.cs, sealed, Err::<Vec<u8>, Error>(e)),
                Ok((st, msg)) => sealed matches Some(ct) && {
                    &&& complete_encrypt_spec(self@.ss.cs, st@.ss.cs, sealed, Ok::<Vec<u8>, Error>(ct))
                    &&& msg@ == self@.ephemeral_pub + ct@
                    &&& st@ == HandshakeView {
                        ss: SymmetricView { cs: st@.ss.cs, ..sym_mix_hash(self@.ss, ct@) },
                        ..self@
                    }
                },
            },
    {
        let mut s = self;
        let ct = s.ss.complete_encrypt_and_hash(sealed)?;
        let msg = concat(s.ephemeral_pub.as_slice(), ct.as_slice());
        Ok((s, msg))
    }
    /// Respond to an authenticator as an initiator, first step.
    ///
    /// `peer_response_message` is the responder's message: its ephemeral point (see
    /// [`split_handshake_message`]), then a ciphertext. The caller imports the point and
    /// passes the Diffie-Hellman outputs of the local ephemeral key with it (`dh_ee`) and,
    /// when there is a local identity, of the local static key with it (`dh_se`).
    ///
    /// Returns the opening request for the ciphertext.
    pub fn response_request(self, peer_response_message: &[u8], dh_ee: &[u8], dh_se: Option<&[u8]>) -> (r: Result<(Self, AeadRequest)>)
        ensures
            peer_response_message@.len() < 65 || peer_response_message@[0] != 4 ==> r == Err::<(Self, AeadRequest), Error>(Error::InvalidArgument),
            peer_response_message@.len() >= 65 && peer_response_message@[0] == 4 && self@.has_local_identity && dh_se is None ==> r == Err::<(Self, AeadRequest), Error>(Error::Failure),
            peer_response_message@.len() >= 65 && peer_response_message@[0] == 4 && !(self@.has_local_identity && dh_se is None) ==> {
                let point = peer_response_message@.subrange(0, 65);
                let ct = peer_response_message@.subrange(65, peer_response_message@.len() as int);
                let ss = mix_optional(
                    sym_mix_key(mix_ephemeral(self@.ss, point), dh_ee@),
                    if self@.has_local_identity { opt_view(dh_se) } else { None },
                );
                &&& (r is Ok ==> r->Ok_0.0@ == HandshakeView { ss, pending: ct, peer_ephemeral: Some(point), ..self@ })
                &&& prepare_decrypt_spec(ss.cs, ss.h, ct, match r {
                    Ok(p) => Ok(p.1),
                    Err(e) => Err(e),
                })
            },
    {
        let msg = split_handshake_message(peer_response_message)?;
        let mut s = self;
        s.ss.mix_hash(msg.point.as_slice());
        s.ss.mix_key(msg.point.as_slice())?;
        s.ss.mix_key(dh_ee)?;
        if s.has_local_identity {
            match dh_se {
                Some(dh) => {
                    s.ss.mix_key(dh)?;
                },
                None => return Err(Error::Failure),
            }
        }
        let req = s.ss.prepare_decrypt_and_hash(msg.ciphertext.as_slice())?;
        s.pending = msg.ciphertext;
        s.peer_ephemeral = Some(msg.point);
        Ok((s, req))
    }

    /// Respond to an authenticator as an initiator, second step: from the opening result of
    /// the responder's ciphertext (kept from [`Self::response_request`]), a [`Channel`] for
    /// further communication, and the handshake hash.
    ///
    /// The responder's payload is empty; a non-empty one is a caller error.
    pub fn process_handshake_response(self, opened: Option<Vec<u8>>) -> (r: Result<(Channel, [u8; HASH_LEN])>)
        requires
            decrypt_outcome(self@.ss.cs, opened) matches Ok(p) ==> p.len() == 0,
        ensures
            decrypt_outcome(self@.ss.cs, opened) matches Err(e) ==> r == Err::<(Channel, [u8; HASH_LEN]), Error>(e),
            decrypt_outcome(self@.ss.cs, opened) is Ok ==> {
                &&& r is Ok
                &&& r->Ok_0.0@ == split_view(self@.ss.ck, true)
                &&& r->Ok_0.1@ == sym_mix_hash(self@.ss, self@.pending).h
            },
    {
        let mut s = self;
        let ghost pre = s.ss@;
        let res = s.ss.complete_decrypt_and_hash(s.pending.as_slice(), opened);
        proof {
            lemma_complete_decrypt(pre.cs, s.ss@.cs, opened, res);
        }
        let _pt = res?;
        let channel = s.ss.split(true)?;
        Ok((channel, s.ss.get_handshake_hash()))
    }

    /// Complete a Noise `KNpsk0` or `NKpsk0` handshake as the responding party
    /// (authenticator), first step.
    ///
    /// * `psk`: pre-shared key, negotiated out-of-band
    /// * `has_local_identity`: whether the responder has a static key pair; `local_pub` is
    ///   its public key as NSS reports it (`None` when reading it failed)
    /// * `peer_pub`: the initiator's static public key
    /// * `message`: the initiator's first message; see [`split_handshake_message`]
    /// * `dh_es`: with a local identity, the Diffie-Hellman output of the local static key
    ///   with the initiator's ephemeral point
    ///
    /// If there is a local identity this performs a `NKpsk0` handshake; otherwise a `KNpsk0`
    /// handshake, and `peer_pub` must be set. If neither is given, this returns an error.
    ///
    /// Returns the opening request for the initiator's ciphertext.
    pub fn responder_request(
        psk: &[u8; 32],
        has_local_identity: bool,
        local_pub: Option<&[u8]>,
        peer_pub: Option<&[u8; P256_X962_LENGTH]>,
        message: &[u8],
        dh_es: Option<&[u8]>,
    ) -> (r: Result<(Self, AeadRequest)>)
        ensures
            message@.len() < 65 || message@[0] != 4 ==> r == Err::<(Self, AeadRequest), Error>(Error::InvalidArgument),
            message@.len() >= 65 && message@[0] == 4 ==> {
                &&& has_local_identity && local_pub is None ==> r == Err::<(Self, AeadRequest), Error>(Error::Failure)
                &&& !has_local_identity && peer_pub is None ==> r == Err::<(Self, AeadRequest), Error>(Error::InvalidArgument)
                &&& has_local_identity && local_pub is Some && dh_es is None ==> r == Err::<(Self, AeadRequest), Error>(Error::Failure)
                &&& (has_local_identity && local_pub is Some && dh_es is Some) || (!has_local_identity && peer_pub is Some) ==> {
                    let point = message@.subrange(0, 65);
                    let ct = message@.subrange(65, message@.len() as int);
                    let pre = if has_local_identity {
                        premessage(HandshakeType::NKpsk0, 0, local_pub.unwrap()@, psk@)
                    } else {
                        premessage(HandshakeType::KNpsk0, 1, peer_pub.unwrap()@, psk@)
                    };
                    let ss = mix_optional(
                        mix_ephemeral(pre, point),
                        if has_local_identity { opt_view(dh_es) } else { None },
                    );
                    &&& (r is Ok ==> r->Ok_0.0@ == HandshakeView {
                        ss,
                        has_local_identity,
                        peer_pub: match peer_pub {
                            Some(p) => Some(p@),
                            None => None,
                        },
                        ephemeral_pub: Seq::empty(),
                        pending: ct,
                        peer_ephemeral: Some(point),
                    })
                    &&& prepare_decrypt_spec(ss.cs, ss.h, ct, match r {
                        Ok(p) => Ok(p.1),
                        Err(e) => Err(e),
                    })
                }
            },
    {
        let msg = split_handshake_message(message)?;
        let mut ss;
        if has_local_identity {
            let local_pub = match local_pub {
                Some(l) => l,
                None => return Err(Error::Failure),
            };
            ss = SymmetricState::initialize_symmetric(HandshakeType::NKpsk0);
            let marker: [u8; 1] = [0];
            assert(marker@ =~= seq![0u8]);
            ss.mix_hash(marker.as_slice());
            ss.mix_hash(local_pub);
        } else if let Some(peer_pub) = peer_pub {
            ss = SymmetricState::initialize_symmetric(HandshakeType::KNpsk0);
            let marker: [u8; 1] = [1];
            assert(marker@ =~= seq![1u8]);
            ss.mix_hash(marker.as_slice());
            ss.mix_hash(peer_pub.as_slice());
        } else {
            return Err(Error::InvalidArgument);
        }
        ss.mix_key_and_hash(psk.as_slice())?;
        ss.mix_hash(msg.point.as_slice());
        ss.mix_key(msg.point.as_slice())?;
        if has_local_identity {
            match dh_es {
                Some(dh) => {
                    ss.mix_key(dh)?;
                },
                None => return Err(Error::Failure),
            }
        }
        let req = ss.prepare_decrypt_and_hash(msg.ciphertext.as_slice())?;
        let stored_peer: Option<[u8; P256_X962_LENGTH]> = match peer_pub {
            Some(p) => Some(*p),
            None => None,
        };
        Ok((HandshakeState { ss, has_local_identity, peer_pub: stored_peer, ephemeral_pub: Vec::new(), pending: msg.ciphertext, peer_ephemeral: Some(msg.point) }, req))
    }

    /// The responder, second step: from the opening result of the initiator's ciphertext
    /// (kept from [`Self::responder_request`]), mixes that ciphertext into the hash.
    ///
    /// The initiator's payload is empty; a non-empty one is a caller error. Next, the caller
    /// generates an ephemeral key pair and calls [`Self::responder_response_request`].
    pub fn responder_decrypted(self, opened: Option<Vec<u8>>) -> (r: Result<Self>)
        requires
            decrypt_outcome(self@.ss.cs, opened) matches Ok(p) ==> p.len() == 0,
        ensures
            decrypt_outcome(self@.ss.cs, opened) matches Err(e) ==> r == Err::<Self, Error>(e),
            decrypt_outcome(self@.ss.cs, opened) is Ok ==> {
                &&& r is Ok
                &&& r->Ok_0@ == HandshakeView {
                    ss: SymmetricView {
                        cs: advanced(self@.ss.cs),
                        ..sym_mix_hash(self@.ss, self@.pending)
                    },
                    ..self@
                }
            },
    {
        let mut s = self;
        let ghost pre = s.ss@;
        let res = s.ss.complete_decrypt_and_hash(s.pending.as_slice(), opened);
        proof {
            lemma_complete_decrypt(pre.cs, s.ss@.cs, opened, res);
        }
        let _pt = res?;
        Ok(s)
    }

    /// The responder, third step: mixes in the responder's ephemeral public key
    /// `ephemeral_pub`, the Diffie-Hellman output `dh_ee` of that key with the initiator's
    /// ephemeral point and, when the initiator's static key is known, the output `dh_se` of
    /// the responder's ephemeral key with it (imported from [`Self::peer_public_der`]).
    ///
    /// Returns the sealing request for the empty payload.
    pub fn responder_response_request(self, ephemeral_pub: &[u8], dh_ee: &[u8], dh_se: Option<&[u8]>) -> (r: Result<(Self, AeadRequest)>)
        ensures
            self@.peer_pub is Some && dh_se is None ==> r == Err::<(Self, AeadRequest), Error>(Error::Failure),
            !(self@.peer_pub is Some && dh_se is None) ==> {
                let ss = mix_optional(
                    sym_mix_key(mix_ephemeral(self@.ss, ephemeral_pub@), dh_ee@),
                    if self@.peer_pub is Some { opt_view(dh_se) } else { None },
                );
                &&& (r is Ok ==> r->Ok_0.0@ == HandshakeView {
                    ss,
                    ephemeral_pub: ephemeral_pub@,
                    ..self@
                })
                &&& prepare_encrypt_spec(ss.cs, ss.h, Seq::empty(), match r {
                    Ok(p) => Ok(p.1),
                    Err(e) => Err(e),
                })
            },
    {
        let mut s = self;
        s.ss.mix_hash(ephemeral_pub);
        s.ss.mix_key(ephemeral_pub)?;
        s.ss.mix_key(dh_ee)?;
        if s.peer_pub.is_some() {
            match dh_se {
                Some(dh) => {
                    s.ss.mix_key(dh)?;
                },
                None => return Err(Error::Failure),
            }
        }
        s.ephemeral_pub = to_vec(ephemeral_pub);
        let empty: [u8; 0] = [];
        assert(empty@ =~= Seq::<u8>::empty());
        let req = s.ss.prepare_encrypt_and_hash(empty.as_slice())?;
        Ok((s, req))
    }

    /// The responder, last step: from the sealing result, the [`Channel`] for further
    /// communication and the response message for the initiator, which is the ephemeral
    /// public key followed by the ciphertext.
    pub fn build_responder(self, sealed: Option<Vec<u8>>) -> (r: Result<(Channel, Vec<u8>)>)
        ensures
            encrypt_outcome(self@.ss.cs, sealed) matches Err(e) ==> r == Err::<(Channel, Vec<u8>), Error>(e),
            encrypt_outcome(self@.ss.cs, sealed) matches Ok(ct) ==> {
                &&& r is Ok
                &&& r->Ok_0.0@ == split_view(self@.ss.ck, false)
                &&& r->Ok_0.1@ == self@.ephemeral_pub + ct
            },
    {
        let mut s = self;
        let ghost pre = s.ss@;
        let res = s.ss.complete_encrypt_and_hash(sealed);
        proof {
            lemma_complete_encrypt(pre.cs, s.ss@.cs, sealed, res);
        }
        let ct = res?;
        let mut response_message = to_vec(s.ephemeral_pub.as_slice());
        append(&mut response_message, ct.as_slice());
        let channel = s.ss.split(false)?;
        Ok((channel, response_message))
    }
}

/// The parties of a handshake end with counterparty channels when they agree on its inputs.
///
/// Both start from the same pre-message state (the same pattern, static key and pre-shared
/// key). The first message mixes in the initiator's ephemeral key `e_i` and, for `NKpsk0`,
/// the static-ephemeral Diffie-Hellman output `dh1`; the initiator's encryption and the
/// responder's decryption of its payload leave the chaining key as it is. The response mixes
/// in the responder's ephemeral key `e_r`, the ephemeral-ephemeral output `dh_ee` and, when
/// the initiator has a static key, `dh2`. When both sides computed the same Diffie-Hellman
/// outputs, the initiator's channel and the responder's channel are counterparties.
pub proof fn lemma_handshake_counterparties(
    start: SymmetricView,
    e_i: Seq<u8>,
    dh1: Option<Seq<u8>>,
    e_r: Seq<u8>,
    dh_ee: Seq<u8>,
    dh2: Option<Seq<u8>>,
    i1: SymmetricView,
    r1: SymmetricView,
    i2: SymmetricView,
    r2: SymmetricView,
)
    requires
        i1.ck == mix_optional(mix_ephemeral(start, e_i), dh1).ck,
        r1.ck == mix_optional(mix_ephemeral(start, e_i), dh1).ck,
        i2 == mix_optional(sym_mix_key(mix_ephemeral(i1, e_r), dh_ee), dh2),
        r2 == mix_optional(sym_mix_key(mix_ephemeral(r1, e_r), dh_ee), dh2),
    ensures
        crate::channel::counterparty_spec(split_view(i2.ck, true), split_view(r2.ck, false)),
{
    assert(sym_mix_hash(i1, e_r).ck == sym_mix_hash(r1, e_r).ck);
    assert(mix_ephemeral(i1, e_r).ck == mix_ephemeral(r1, e_r).ck);
    assert(sym_mix_key(mix_ephemeral(i1, e_r), dh_ee).ck == sym_mix_key(mix_ephemeral(r1, e_r), dh_ee).ck);
    assert(i2.ck == r2.ck);
}

/// The arguments of a QR-initiated (`KNpsk0`) handshake as initiator, checked as
/// `nsINoiseHandshakeService.initialKNpsk0HandshakeMessage` receives them: the pre-shared
/// key must be 32 bytes long, and the local identity (a PKCS #8 private key) non-empty and
/// at most 0xffff bytes long. Gives the pre-shared key.
pub fn check_initial_knpsk0_args(psk: &[u8], local_identity: &[u8]) -> (r: Result<[u8; 32]>)
    ensures
        psk@.len() == 32 && 0 < local_identity@.len() <= 0xffff ==> r is Ok && r->Ok_0@ == psk@,
        !(psk@.len() == 32 && 0 < local_identity@.len() <= 0xffff) ==> r == Err::<[u8; 32], Error>(
            Error::InvalidArgument,
        ),
{
    if psk.len() != 32 {
        return Err(Error::InvalidArgument);
    }
    if local_identity.len() == 0 || local_identity.len() > 0xffff {
        return Err(Error::InvalidArgument);
    }
    Ok(crate::bytes::to_array32(psk))
}

/// The arguments of a QR-initiated (`KNpsk0`) handshake as responder, checked as
/// `nsINoiseHandshakeService.buildKNpsk0Responder` receives them: the pre-shared key must
/// be 32 bytes long, the initiator's public key an uncompressed point's 65 bytes, and the
/// initial message at least that long. Gives the pre-shared key and the public key.
pub fn check_knpsk0_responder_args(psk: &[u8], peer_pub: &[u8], initial_message: &[u8]) -> (r:
    Result<([u8; 32], [u8; P256_X962_LENGTH])>)
    ensures
        psk@.len() == 32 && peer_pub@.len() == 65 && initial_message@.len() >= 65 ==> r is Ok
            && r->Ok_0.0@ == psk@ && r->Ok_0.1@ == peer_pub@,
        !(psk@.len() == 32 && peer_pub@.len() == 65 && initial_message@.len() >= 65) ==> r
            == Err::<([u8; 32], [u8; 65]), Error>(Error::InvalidArgument),
{
    if psk.len() != 32 || peer_pub.len() != P256_X962_LENGTH || initial_message.len()
        < P256_X962_LENGTH {
        return Err(Error::InvalidArgument);
    }
    Ok((crate::bytes::to_array32(psk), to_array65(peer_pub)))
}

/// An initiator's handshake state that can be completed once, as
/// `nsINoiseHandshakeState` holds it; `T` is the state with the key pairs that go with it.
pub struct NoiseHandshakeState<T> {
    inner: Option<T>,
}

impl<T> NoiseHandshakeState<T> {
    /// The state, until it is taken.
    pub closed spec fn state(&self) -> Option<T> {
        self.inner
    }

    /// Holds `state` until it is taken.
    pub fn new(state: T) -> (r: Self)
        ensures
            r.state() == Some(state),
    {
        NoiseHandshakeState { inner: Some(state) }
    }

    /// Whether the state has been taken.
    pub fn is_consumed(&self) -> (r: bool)
        ensures
            r == self.state() is None,
    {
        self.inner.is_none()
    }

    /// Takes the state, to process the response with it; afterwards this is consumed.
    ///
    /// Fails with [`Error::InvalidState`] when it was consumed already.
    pub fn take(&mut self) -> (r: Result<T>)
        ensures
            final(self).state() is None,
            match old(self).state() {
                Some(v) => r == Ok::<T, Error>(v),
                None => r == Err::<T, Error>(Error::InvalidState),
            },
    {
        match self.inner.take() {
            Some(s) => Ok(s),
            None => Err(Error::InvalidState),
        }
    }
}

} // verus!
