//! Noise transport channel: a pair of [`CipherState`] objects, one to read and one to write.

use crate::cipher::{AeadRequest, PADDING_MUL};
use crate::cipher_state::{
    advanced, complete_decrypt_spec, complete_encrypt_spec, prepare_decrypt_spec, prepare_encrypt_spec,
    CipherState, CipherStateView,
};
use crate::error::{Error, Result};
use vstd::prelude::*;

verus! {

/// What a [`Channel`] holds: its reader and writer cipher states.
pub struct ChannelView {
    pub reader: CipherStateView,
    pub writer: CipherStateView,
}

/// Noise post-handshake transport interface, built with a pair of [`CipherState`][]
/// objects.
///
/// Messages must be decrypted in the same order that they were encrypted.
pub struct Channel {
    reader: CipherState,
    writer: CipherState,
}

impl View for Channel {
    type V = ChannelView;

    closed spec fn view(&self) -> ChannelView {
        ChannelView { reader: self.reader@, writer: self.writer@ }
    }
}

/// `true` when both keys of a channel are set.
pub open spec fn has_keys_spec(c: ChannelView) -> bool {
    c.reader.key is Some && c.writer.key is Some
}

/// `a` is a counterparty of `b`: `a` reads with the key and nonce `b` writes with, and
/// writes with the key and nonce `b` reads with.
pub open spec fn counterparty_spec(a: ChannelView, b: ChannelView) -> bool {
    a.reader == b.writer && a.writer == b.reader
}

impl Channel {
    /// A channel with no keys.
    pub fn new() -> (r: Self)
        ensures
            r@.reader.key is None,
            r@.writer.key is None,
            r@.reader.nonce == 0,
            r@.writer.nonce == 0,
    {
        Channel { reader: CipherState::new(), writer: CipherState::new() }
    }

    /// Create a new transport channel, using a pair of cipher states initialized with a
    /// pair of keys as raw bytes derived from a Noise handshake.
    pub fn new_with_key_bytes(read_key: &[u8; 32], write_key: &[u8; 32]) -> (r: Result<Self>)
        ensures
            r is Ok,
            r->Ok_0@.reader.key == Some(read_key@),
            r->Ok_0@.writer.key == Some(write_key@),
            r->Ok_0@.reader.nonce == 0,
            r->Ok_0@.writer.nonce == 0,
    {
        Ok(Channel {
            reader: CipherState::new_with_key_bytes(read_key)?,
            writer: CipherState::new_with_key_bytes(write_key)?,
        })
    }

    /// Initialize this channel with a `read_key` and `write_key` (derived from a Noise
    /// handshake) as raw bytes, and reset both nonces to 0.
    pub fn initialize_keys_bytes(&mut self, read_key: &[u8; 32], write_key: &[u8; 32]) -> (r:
        Result<()>)
        ensures
            r is Ok,
            final(self)@.reader.key == Some(read_key@),
            final(self)@.writer.key == Some(write_key@),
            final(self)@.reader.nonce == 0,
            final(self)@.writer.nonce == 0,
    {
        self.reader.initialize_key_bytes(read_key)?;
        self.writer.initialize_key_bytes(write_key)?;
        Ok(())
    }

    /// Initialize this channel with keys given as byte strings of any length (as
    /// `nsINoiseChannel.initializeKeys` receives them).
    ///
    /// Fails with [`Error::InvalidArgument`], leaving the channel unchanged, when a key is
    /// not 32 bytes long.
    pub fn initialize_keys_from_slices(&mut self, read_key: &[u8], write_key: &[u8]) -> (r: Result<()>)
        ensures
            read_key@.len() != 32 || write_key@.len() != 32 ==> r == Err::<(), Error>(
                Error::InvalidArgument,
            ) && final(self)@ == old(self)@,
            read_key@.len() == 32 && write_key@.len() == 32 ==> {
                &&& r is Ok
                &&& final(self)@.reader.key == Some(read_key@)
                &&& final(self)@.writer.key == Some(write_key@)
                &&& final(self)@.reader.nonce == 0
                &&& final(self)@.writer.nonce == 0
            },
    {
        if read_key.len() != 32 || write_key.len() != 32 {
            return Err(Error::InvalidArgument);
        }
        let read_key = crate::bytes::to_array32(read_key);
        let write_key = crate::bytes::to_array32(write_key);
        self.initialize_keys_bytes(&read_key, &write_key)
    }

    /// Returns `true` if both reader and writer keys are set, allowing this channel to
    /// encrypt and decrypt data.
    pub fn has_keys(&self) -> (r: bool)
        ensures
            r == has_keys_spec(self@),
    {
        self.reader.has_key() && self.writer.has_key()
    }

    /// First step of encrypting `plaintext` with the writer key and nonce: the sealing
    /// request. Returns an error if the channel is missing keys.
    pub fn prepare_encrypt(&self, plaintext: &[u8]) -> (r: Result<AeadRequest>)
        requires
            plaintext@.len() + PADDING_MUL <= usize::MAX,
        ensures
            !has_keys_spec(self@) ==> r == Err::<AeadRequest, Error>(Error::InvalidState),
            has_keys_spec(self@) ==> prepare_encrypt_spec(self@.writer, Seq::empty(), plaintext@, r),
    {
        if !self.has_keys() {
            return Err(Error::InvalidState);
        }
        let empty: [u8; 0] = [];
        assert(empty@ =~= Seq::<u8>::empty());
        self.writer.prepare_encrypt_with_ad(empty.as_slice(), plaintext)
    }

    /// Second step of encrypting: from the sealing result, the ciphertext; the writer nonce
    /// then advances by one. Returns an error if the channel is missing keys.
    pub fn complete_encrypt(&mut self, sealed: Option<Vec<u8>>) -> (r: Result<Vec<u8>>)
        ensures
            final(self)@.reader == old(self)@.reader,
            !has_keys_spec(old(self)@) ==> r == Err::<Vec<u8>, Error>(Error::InvalidState)
                && final(self)@ == old(self)@,
            has_keys_spec(old(self)@) ==> complete_encrypt_spec(old(self)@.writer, final(self)@.writer, sealed, r),
    {
        if !self.has_keys() {
            return Err(Error::InvalidState);
        }
        self.writer.complete_encrypt_with_ad(sealed)
    }

    /// First step of decrypting `ciphertext` with the reader key and nonce: the opening
    /// request. Returns an error if the channel is missing keys.
    pub fn prepare_decrypt(&self, ciphertext: &[u8]) -> (r: Result<AeadRequest>)
        ensures
            !has_keys_spec(self@) ==> r == Err::<AeadRequest, Error>(Error::InvalidState),
            has_keys_spec(self@) ==> prepare_decrypt_spec(self@.reader, Seq::empty(), ciphertext@, r),
    {
        if !self.has_keys() {
            return Err(Error::InvalidState);
        }
        let empty: [u8; 0] = [];
        assert(empty@ =~= Seq::<u8>::empty());
        self.reader.prepare_decrypt_with_ad(empty.as_slice(), ciphertext)
    }

    /// Second step of decrypting: from the opening result, the plaintext; the reader nonce
    /// then advances by one. Returns an error if the channel is missing keys, or the data
    /// cannot be decrypted.
    pub fn complete_decrypt(&mut self, opened: Option<Vec<u8>>) -> (r: Result<Vec<u8>>)
        ensures
            final(self)@.writer == old(self)@.writer,
            !has_keys_spec(old(self)@) ==> r == Err::<Vec<u8>, Error>(Error::InvalidState)
                && final(self)@ == old(self)@,
            has_keys_spec(old(self)@) ==> complete_decrypt_spec(old(self)@.reader, final(self)@.reader, opened, r),
    {
        if !self.has_keys() {
            return Err(Error::InvalidState);
        }
        self.reader.complete_decrypt_with_ad(opened)
    }

    /// Get the current reader nonce.
    pub fn get_reader_nonce(&self) -> (r: u64)
        ensures
            r == self@.reader.nonce,
    {
        self.reader.get_nonce()
    }

    /// Set the reader nonce. See [`CipherState::set_nonce`].
    pub fn set_reader_nonce(&mut self, nonce: u64)
        ensures
            final(self)@.writer == old(self)@.writer,
            final(self)@.reader.key == old(self)@.reader.key,
            final(self)@.reader.nonce == nonce,
    {
        self.reader.set_nonce(nonce);
    }

    /// Get the current writer nonce.
    pub fn get_writer_nonce(&self) -> (r: u64)
        ensures
            r == self@.writer.nonce,
    {
        self.writer.get_nonce()
    }

    /// Set the writer nonce. See [`CipherState::set_nonce`].
    pub fn set_writer_nonce(&mut self, nonce: u64)
        ensures
            final(self)@.reader == old(self)@.reader,
            final(self)@.writer.key == old(self)@.writer.key,
            final(self)@.writer.nonce == nonce,
    {
        self.writer.set_nonce(nonce);
    }

    /// Returns `true` if this [`Channel`] is a counterparty of `other`: the reader key and
    /// nonce of `self` are the same as the writer key and nonce of `other`, and vice versa.
    pub fn is_counterparty(&self, other: &Channel) -> (r: bool)
        ensures
            r == counterparty_spec(self@, other@),
    {
        self.reader.same_state(&other.writer) && self.writer.same_state(&other.reader)
    }
}

impl Default for Channel {
    fn default() -> (r: Self)
        ensures
            r@.reader.key is None,
            r@.writer.key is None,
            r@.reader.nonce == 0,
            r@.writer.nonce == 0,
    {
        Channel::new()
    }
}

/// Being counterparties is symmetric.
pub proof fn lemma_counterparty_symmetric(a: ChannelView, b: ChannelView)
    requires
        counterparty_spec(a, b),
    ensures
        counterparty_spec(b, a),
{
}

/// Counterparties agree on each message: when `a` is a counterparty of `b` and both have
/// their keys, the request with which `a` seals a plaintext uses the same key, nonce and
/// associated data as the request with which `b` opens the resulting ciphertext.
pub proof fn lemma_counterparty_requests_agree(
    a: ChannelView,
    b: ChannelView,
    plaintext: Seq<u8>,
    ciphertext: Seq<u8>,
    seal: Result<AeadRequest>,
    open: Result<AeadRequest>,
)
    requires
        counterparty_spec(a, b),
        has_keys_spec(a),
        has_keys_spec(b),
        prepare_encrypt_spec(a.writer, Seq::empty(), plaintext, seal),
        prepare_decrypt_spec(b.reader, Seq::empty(), ciphertext, open),
    ensures
        seal is Ok <==> open is Ok,
        seal is Ok ==> seal->Ok_0.key@ == open->Ok_0.key@ && seal->Ok_0.nonce@
            == open->Ok_0.nonce@ && seal->Ok_0.aad@ == open->Ok_0.aad@,
{
}

/// Counterparties stay counterparties across a message: after `a` completes an encryption
/// and `b` completes the matching decryption, both successfully, they are counterparties
/// again.
pub proof fn lemma_counterparty_after_message(
    a: ChannelView,
    b: ChannelView,
    a2: ChannelView,
    b2: ChannelView,
    sealed: Option<Vec<u8>>,
    opened: Option<Vec<u8>>,
    r1: Result<Vec<u8>>,
    r2: Result<Vec<u8>>,
)
    requires
        counterparty_spec(a, b),
        has_keys_spec(a),
        has_keys_spec(b),
        a2.reader == a.reader,
        complete_encrypt_spec(a.writer, a2.writer, sealed, r1),
        b2.writer == b.writer,
        complete_decrypt_spec(b.reader, b2.reader, opened, r2),
        r1 is Ok,
        r2 is Ok,
    ensures
        counterparty_spec(a2, b2),
{
}

/// What one channel encrypts, its counterparty decrypts back: when `a` is a counterparty of
/// `b` and `a` prepared the sealing of `plaintext`, and opening the ciphertext under `b`'s
/// request gives back the data that was sealed (as AES-GCM does under the same key, nonce
/// and associated data), then `b` completes the decryption with `plaintext`.
pub proof fn lemma_counterparty_round_trip(
    a: ChannelView,
    b: ChannelView,
    b2: ChannelView,
    plaintext: Seq<u8>,
    seal: Result<AeadRequest>,
    opened: Option<Vec<u8>>,
    r: Result<Vec<u8>>,
)
    requires
        counterparty_spec(a, b),
        has_keys_spec(a),
        prepare_encrypt_spec(a.writer, Seq::empty(), plaintext, seal),
        seal is Ok,
        opened matches Some(v) && v@ == seal->Ok_0.data@,
        complete_decrypt_spec(b.reader, b2.reader, opened, r),
    ensures
        r is Ok,
        r->Ok_0@ == plaintext,
        b2.reader == advanced(b.reader),
{
    crate::cipher::lemma_unpad_pad(plaintext);
}

/// A ciphertext is opened under a new nonce each time: after `b` completes a decryption,
/// the request with which it opens any ciphertext next uses another nonce than the
/// request before it, so a replayed message does not authenticate again.
pub proof fn lemma_next_open_uses_new_nonce(
    b: ChannelView,
    b2: ChannelView,
    ciphertext: Seq<u8>,
    again: Seq<u8>,
    first: Result<AeadRequest>,
    opened: Option<Vec<u8>>,
    r: Result<Vec<u8>>,
    second: Result<AeadRequest>,
)
    requires
        prepare_decrypt_spec(b.reader, Seq::empty(), ciphertext, first),
        complete_decrypt_spec(b.reader, b2.reader, opened, r),
        r is Ok,
        prepare_decrypt_spec(b2.reader, Seq::empty(), again, second),
        first is Ok,
        second is Ok,
    ensures
        first->Ok_0.nonce@ != second->Ok_0.nonce@,
{
    if first->Ok_0.nonce@ == second->Ok_0.nonce@ {
        crate::cipher::lemma_nonce_injective(b.reader.nonce, b2.reader.nonce);
    }
}

} // verus!
