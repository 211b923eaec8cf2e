//! The Noise `SymmetricState` object, with SHA-256.
//!
//! <https://noiseprotocol.org/noise.html#the-symmetricstate-object>

use crate::bytes::{concat, to_array32, zeros};
use crate::channel::{Channel, ChannelView};
use crate::cipher::{AeadRequest, PADDING_MUL};
use crate::cipher_state::{
    complete_decrypt_spec, complete_encrypt_spec, prepare_decrypt_spec, prepare_encrypt_spec,
    CipherState, CipherStateView,
};
use crate::error::Result;
use crate::handshake_type::HandshakeType;
use crate::hash::{hkdf_spec, noise_hkdf, protocol_name_spec, sha256, sha256_spec, Sha256, HASH_LEN};
use vstd::prelude::*;

verus! {

/// What a [`SymmetricState`] holds: its cipher state, chaining key `ck` and handshake hash
/// `h`.
pub struct SymmetricView {
    pub cs: CipherStateView,
    pub ck: Seq<u8>,
    pub h: Seq<u8>,
}

/// The initial handshake hash for a protocol name: the name padded with zeros to 32 bytes,
/// or its hash when it is longer.
pub open spec fn initial_hash(name: Seq<u8>) -> Seq<u8> {
    if name.len() <= 32 {
        name + zeros((32 - name.len()) as nat)
    } else {
        sha256_spec(name)@
    }
}

/// The state after `InitializeSymmetric(protocol_name)`.
pub open spec fn sym_initialize(ht: HandshakeType) -> SymmetricView {
    SymmetricView {
        cs: CipherStateView { key: None, nonce: 0 },
        ck: initial_hash(protocol_name_spec(ht)),
        h: initial_hash(protocol_name_spec(ht)),
    }
}

/// `MixHash(data)`: `h = HASH(h || data)`.
pub open spec fn sym_mix_hash(s: SymmetricView, data: Seq<u8>) -> SymmetricView {
    SymmetricView { h: sha256_spec(s.h + data)@, ..s }
}

/// `MixKey(ikm)`: the first HKDF output becomes the chaining key, the second the cipher key,
/// with the nonce reset.
pub open spec fn sym_mix_key(s: SymmetricView, ikm: Seq<u8>) -> SymmetricView {
    let temp = hkdf_spec(s.ck, ikm, Seq::empty(), 64);
    SymmetricView {
        cs: CipherStateView { key: Some(temp.subrange(32, 64)), nonce: 0 },
        ck: temp.subrange(0, 32),
        h: s.h,
    }
}

/// `MixKeyAndHash(ikm)`: the three HKDF outputs become the chaining key, data mixed into the
/// hash, and the cipher key.
pub open spec fn sym_mix_key_and_hash(s: SymmetricView, ikm: Seq<u8>) -> SymmetricView {
    let temp = hkdf_spec(s.ck, ikm, Seq::empty(), 96);
    SymmetricView {
        cs: CipherStateView { key: Some(temp.subrange(64, 96)), nonce: 0 },
        ck: temp.subrange(0, 32),
        h: sha256_spec(s.h + temp.subrange(32, 64))@,
    }
}

/// The two transport keys of `Split()`, in derivation order.
pub open spec fn split_keys(ck: Seq<u8>) -> (Seq<u8>, Seq<u8>) {
    let temp = hkdf_spec(ck, Seq::empty(), Seq::empty(), 64);
    (temp.subrange(0, 32), temp.subrange(32, 64))
}

/// The transport channel of `Split()`: the initiator writes with the first key and reads
/// with the second, the responder the other way round, both nonces at 0.
pub open spec fn split_view(ck: Seq<u8>, initiator: bool) -> ChannelView {
    let (k1, k2) = split_keys(ck);
    if initiator {
        ChannelView {
            reader: CipherStateView { key: Some(k2), nonce: 0 },
            writer: CipherStateView { key: Some(k1), nonce: 0 },
        }
    } else {
        ChannelView {
            reader: CipherStateView { key: Some(k1), nonce: 0 },
            writer: CipherStateView { key: Some(k2), nonce: 0 },
        }
    }
}

/// [Noise `SymmetricState`][0] object, with SHA-256.
///
/// [0]: https://noiseprotocol.org/noise.html#the-symmetric-object
pub struct SymmetricState {
    cs: CipherState,
    ck: [u8; HASH_LEN],
    h: [u8; HASH_LEN],
}

impl View for SymmetricState {
    type V = SymmetricView;

    closed spec fn view(&self) -> SymmetricView {
        SymmetricView { cs: self.cs@, ck: self.ck@, h: self.h@ }
    }
}

impl SymmetricState {
    /// Creates a new [`SymmetricState`][] for a given `protocol`.
    pub fn initialize_symmetric(protocol: HandshakeType) -> (r: Self)
        ensures
            r@ == sym_initialize(protocol),
    {
        let name = <Sha256 as crate::hash::Hash>::protocol_name(protocol);
        let h: [u8; HASH_LEN] = if name.len() <= HASH_LEN {
            // If protocol_name is less than or equal to HASHLEN bytes in length, sets h equal
            // to protocol_name with zero bytes appended to make HASHLEN bytes.
            let z = crate::bytes::zero_vec(HASH_LEN - name.len());
            let padded = concat(name.as_slice(), z.as_slice());
            to_array32(padded.as_slice())
        } else {
            // Otherwise sets h = HASH(protocol_name).
            sha256(name.as_slice())
        };
        let r = SymmetricState { cs: CipherState::new(), ck: h, h };
        assert(r@ == sym_initialize(protocol));
        r
    }

    /// `MixKey(ikm)`.
    pub fn mix_key(&mut self, ikm: &[u8]) -> (r: Result<()>)
        ensures
            r is Ok,
            final(self)@ == sym_mix_key(old(self)@, ikm@),
    {
        let temp = noise_hkdf(self.ck.as_slice(), ikm, 2)?;
        self.ck = to_array32(&temp.as_slice()[0..32]);
        let temp_k = to_array32(&temp.as_slice()[32..64]);
        self.cs.initialize_key_bytes(&temp_k)?;
        Ok(())
    }

    /// Sets `h = HASH(h || data)`.
    pub fn mix_hash(&mut self, data: &[u8])
        ensures
            final(self)@ == sym_mix_hash(old(self)@, data@),
    {
        let buf = concat(self.h.as_slice(), data);
        self.h = sha256(buf.as_slice());
    }

    /// `MixKeyAndHash(ikm)`.
    pub fn mix_key_and_hash(&mut self, ikm: &[u8]) -> (r: Result<()>)
        ensures
            r is Ok,
            final(self)@ == sym_mix_key_and_hash(old(self)@, ikm@),
    {
        let temp = noise_hkdf(self.ck.as_slice(), ikm, 3)?;
        self.ck = to_array32(&temp.as_slice()[0..32]);
        self.mix_hash(&temp.as_slice()[32..64]);
        let temp_k = to_array32(&temp.as_slice()[64..96]);
        self.cs.initialize_key_bytes(&temp_k)?;
        Ok(())
    }

    /// The handshake hash `h`.
    pub fn get_handshake_hash(&self) -> (r: [u8; HASH_LEN])
        ensures
            r@ == self@.h,
    {
        self.h
    }

    /// First step of `EncryptAndHash(plaintext)`: the sealing request, with `h` as
    /// associated data.
    pub fn prepare_encrypt_and_hash(&self, pt: &[u8]) -> (r: Result<AeadRequest>)
        requires
            pt@.len() + PADDING_MUL <= usize::MAX,
        ensures
            prepare_encrypt_spec(self@.cs, self@.h, pt@, r),
    {
        self.cs.prepare_encrypt_with_ad(self.h.as_slice(), pt)
    }

    /// Second step of `EncryptAndHash`: from the sealing result, the ciphertext, which is
    /// then mixed into `h`.
    pub fn complete_encrypt_and_hash(&mut self, sealed: Option<Vec<u8>>) -> (r: Result<Vec<u8>>)
        ensures
            complete_encrypt_spec(old(self)@.cs, final(self)@.cs, sealed, r),
            final(self)@.ck == old(self)@.ck,
            r is Ok ==> final(self)@.h == sym_mix_hash(old(self)@, r->Ok_0@).h,
            r is Err ==> final(self)@.h == old(self)@.h,
    {
        let ct = self.cs.complete_encrypt_with_ad(sealed)?;
        self.mix_hash(ct.as_slice());
        Ok(ct)
    }

    /// First step of `DecryptAndHash(ciphertext)`: the opening request, with `h` as
    /// associated data.
    pub fn prepare_decrypt_and_hash(&self, ct: &[u8]) -> (r: Result<AeadRequest>)
        ensures
            prepare_decrypt_spec(self@.cs, self@.h, ct@, r),
    {
        self.cs.prepare_decrypt_with_ad(self.h.as_slice(), ct)
    }

    /// Second step of `DecryptAndHash`: from the opening result, the plaintext; the
    /// ciphertext `ct` is then mixed into `h`.
    pub fn complete_decrypt_and_hash(&mut self, ct: &[u8], opened: Option<Vec<u8>>) -> (r: Result<
        Vec<u8>,
    >)
        ensures
            complete_decrypt_spec(old(self)@.cs, final(self)@.cs, opened, r),
            final(self)@.ck == old(self)@.ck,
            r is Ok ==> final(self)@.h == sym_mix_hash(old(self)@, ct@).h,
            r is Err ==> final(self)@.h == old(self)@.h,
    {
        let pt = self.cs.complete_decrypt_with_ad(opened)?;
        self.mix_hash(ct);
        Ok(pt)
    }

    /// Return a [`Channel`] for encrypting transport messages (`Split()`).
    ///
    /// The initiator writes with the first key and reads with the second; the responder the
    /// other way round.
    pub fn split(&self, initiator: bool) -> (r: Result<Channel>)
        ensures
            r is Ok,
            r->Ok_0@ == split_view(self@.ck, initiator),
            r->Ok_0@.writer.key == Some(
                hkdf_spec(self@.ck, Seq::empty(), Seq::empty(), 64).subrange(
                    if initiator { 0 } else { 32 },
                    if initiator { 32 } else { 64 },
                ),
            ),
            r->Ok_0@.reader.key == Some(
                hkdf_spec(self@.ck, Seq::empty(), Seq::empty(), 64).subrange(
                    if initiator { 32 } else { 0 },
                    if initiator { 64 } else { 32 },
                ),
            ),
            r->Ok_0@.writer.nonce == 0 && r->Ok_0@.reader.nonce == 0,
    {
        let empty: [u8; 0] = [];
        assert(empty@ =~= Seq::<u8>::empty());
        let temp = noise_hkdf(self.ck.as_slice(), empty.as_slice(), 2)?;
        let temp_k1 = to_array32(&temp.as_slice()[0..32]);
        let temp_k2 = to_array32(&temp.as_slice()[32..64]);
        if initiator {
            Channel::new_with_key_bytes(&temp_k2, &temp_k1)
        } else {
            Channel::new_with_key_bytes(&temp_k1, &temp_k2)
        }
    }
}

/// Noise `Split()`: with `temp = HKDF(ck, empty, 2)`, the initiator's transport channel
/// sends with the first output and receives with the second, and the responder's channel
/// the other way round, both starting at nonce 0; so what one side writes with, the other
/// reads with.
pub proof fn lemma_split_keys(ck: Seq<u8>)
    ensures
        ({
            let temp = hkdf_spec(ck, Seq::empty(), Seq::empty(), 64);
            let i = split_view(ck, true);
            let r = split_view(ck, false);
            &&& i.writer == CipherStateView { key: Some(temp.subrange(0, 32)), nonce: 0 }
            &&& i.reader == CipherStateView { key: Some(temp.subrange(32, 64)), nonce: 0 }
            &&& r.writer == CipherStateView { key: Some(temp.subrange(32, 64)), nonce: 0 }
            &&& r.reader == CipherStateView { key: Some(temp.subrange(0, 32)), nonce: 0 }
        }),
{
}

/// A handshake starts from its protocol name: the name has 31 bytes, no more than a hash,
/// so `InitializeSymmetric` sets both the handshake hash and the chaining key to the name
/// followed by one zero byte, with no cipher key.
pub proof fn lemma_initial_state(ht: HandshakeType)
    ensures
        sym_initialize(ht).h == protocol_name_spec(ht).push(0u8),
        sym_initialize(ht).ck == protocol_name_spec(ht).push(0u8),
        sym_initialize(ht).cs == (CipherStateView { key: None, nonce: 0 }),
{
    crate::hash::lemma_protocol_name(ht);
    assert(protocol_name_spec(ht) + zeros(1) =~= protocol_name_spec(ht).push(0u8));
}

} // verus!
