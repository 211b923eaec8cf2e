//! The Noise `CipherState` object.
//!
//! <https://noiseprotocol.org/noise.html#the-cipherstate-object>

use crate::bytes::bytes_eq;
use crate::cipher::{
    decrypt_request, decrypt_result, encrypt_request, nonce_spec, pad_spec, unpad_spec,
    AeadRequest, KEY_LENGTH, PADDING_MUL,
};
use crate::error::{Error, Result};
use vstd::prelude::*;

verus! {

/// What a [`CipherState`] holds: an optional 32-byte key `k` and a nonce counter `n`.
pub struct CipherStateView {
    pub key: Option<Seq<u8>>,
    pub nonce: u64,
}

/// [Noise `CipherState`][0] object.
///
/// Encryption and decryption are split in two steps around the AEAD, which the caller
/// performs: `prepare_*` checks the state and returns the [`AeadRequest`]; `complete_*`
/// takes the AEAD's output and advances the nonce.
///
/// [0]: https://noiseprotocol.org/noise.html#the-cipherstate-object
pub struct CipherState {
    k: Option<[u8; KEY_LENGTH]>,
    n: u64,
}

impl View for CipherState {
    type V = CipherStateView;

    closed spec fn view(&self) -> CipherStateView {
        CipherStateView {
            key: match self.k {
                Some(k) => Some(k@),
                None => None,
            },
            nonce: self.n,
        }
    }
}

/// `true` when a cipher state with nonce `n` may still encrypt or decrypt: the maximum
/// nonce is reserved.
pub open spec fn nonce_usable(n: u64) -> bool {
    n != u64::MAX
}

/// `req` seals `plaintext` (padded) with associated data `ad` under the key and nonce of
/// `cs`.
pub open spec fn is_seal_request(cs: CipherStateView, ad: Seq<u8>, plaintext: Seq<u8>, req: AeadRequest) -> bool {
    &&& Some(req.key@) == cs.key
    &&& req.nonce@ == nonce_spec(cs.nonce)
    &&& req.aad@ == ad
    &&& req.data@ == pad_spec(plaintext)
}

/// `req` opens `ciphertext` with associated data `ad` under the key and nonce of `cs`.
pub open spec fn is_open_request(cs: CipherStateView, ad: Seq<u8>, ciphertext: Seq<u8>, req: AeadRequest) -> bool {
    &&& Some(req.key@) == cs.key
    &&& req.nonce@ == nonce_spec(cs.nonce)
    &&& req.aad@ == ad
    &&& req.data@ == ciphertext
}

/// The outcome of preparing an encryption of `plaintext` with `ad` from state `cs`: no key
/// is an invalid state, an exhausted nonce a failure, and otherwise the sealing request.
pub open spec fn prepare_encrypt_spec(cs: CipherStateView, ad: Seq<u8>, plaintext: Seq<u8>, r: Result<AeadRequest>) -> bool {
    if cs.key is None {
        r == Err::<AeadRequest, Error>(Error::InvalidState)
    } else if !nonce_usable(cs.nonce) {
        r == Err::<AeadRequest, Error>(Error::Failure)
    } else {
        r is Ok && is_seal_request(cs, ad, plaintext, r->Ok_0)
    }
}

/// The outcome of preparing a decryption of `ciphertext` with `ad` from state `cs`.
pub open spec fn prepare_decrypt_spec(cs: CipherStateView, ad: Seq<u8>, ciphertext: Seq<u8>, r: Result<AeadRequest>) -> bool {
    if cs.key is None {
        r == Err::<AeadRequest, Error>(Error::InvalidState)
    } else if !nonce_usable(cs.nonce) {
        r == Err::<AeadRequest, Error>(Error::Failure)
    } else {
        r is Ok && is_open_request(cs, ad, ciphertext, r->Ok_0)
    }
}

/// What completing an encryption from state `pre` returns, given what sealing returned.
pub open spec fn encrypt_outcome(pre: CipherStateView, sealed: Option<Vec<u8>>) -> core::result::Result<Seq<u8>, Error> {
    if pre.key is None {
        Err(Error::InvalidState)
    } else if !nonce_usable(pre.nonce) {
        Err(Error::Failure)
    } else {
        match sealed {
            None => Err(Error::Failure),
            Some(ct) => Ok(ct@),
        }
    }
}

/// What completing a decryption from state `pre` returns, given what opening returned.
pub open spec fn decrypt_outcome(pre: CipherStateView, opened: Option<Vec<u8>>) -> core::result::Result<Seq<u8>, Error> {
    if pre.key is None {
        Err(Error::InvalidState)
    } else if !nonce_usable(pre.nonce) {
        Err(Error::Failure)
    } else {
        match opened {
            None => Err(Error::Failure),
            Some(pt) => match unpad_spec(pt@) {
                None => Err(Error::Failure),
                Some(p) => Ok(p),
            },
        }
    }
}

/// The cipher state after a successful encryption or decryption from `pre`.
pub open spec fn advanced(pre: CipherStateView) -> CipherStateView {
    CipherStateView { key: pre.key, nonce: (pre.nonce + 1) as u64 }
}

/// The outcome of completing an encryption from state `pre`, in terms of
/// [`encrypt_outcome`] and [`advanced`].
pub proof fn lemma_complete_encrypt(pre: CipherStateView, post: CipherStateView, sealed: Option<Vec<u8>>, r: Result<Vec<u8>>)
    requires
        complete_encrypt_spec(pre, post, sealed, r),
    ensures
        match r {
            Ok(ct) => encrypt_outcome(pre, sealed) == Ok::<Seq<u8>, Error>(ct@) && post == advanced(pre),
            Err(e) => encrypt_outcome(pre, sealed) == Err::<Seq<u8>, Error>(e) && post == pre,
        },
{
}

/// The outcome of completing a decryption from state `pre`, in terms of
/// [`decrypt_outcome`] and [`advanced`].
pub proof fn lemma_complete_decrypt(pre: CipherStateView, post: CipherStateView, opened: Option<Vec<u8>>, r: Result<Vec<u8>>)
    requires
        complete_decrypt_spec(pre, post, opened, r),
    ensures
        match r {
            Ok(pt) => decrypt_outcome(pre, opened) == Ok::<Seq<u8>, Error>(pt@) && post == advanced(pre),
            Err(e) => decrypt_outcome(pre, opened) == Err::<Seq<u8>, Error>(e) && post == pre,
        },
{
}

/// The outcome of completing an encryption from state `pre`, given what sealing returned:
/// on success the ciphertext is returned and the nonce advances by one; otherwise the
/// state is unchanged.
pub open spec fn complete_encrypt_spec(pre: CipherStateView, post: CipherStateView, sealed: Option<Vec<u8>>, r: Result<Vec<u8>>) -> bool {
    &&& post.key == pre.key
    &&& if pre.key is None {
        r == Err::<Vec<u8>, Error>(Error::InvalidState)
    } else if !nonce_usable(pre.nonce) {
        r == Err::<Vec<u8>, Error>(Error::Failure)
    } else {
        match sealed {
            None => r == Err::<Vec<u8>, Error>(Error::Failure),
            Some(ct) => r == Ok::<Vec<u8>, Error>(ct),
        }
    }
    &&& r is Ok ==> post.nonce == pre.nonce + 1
    &&& r is Err ==> post.nonce == pre.nonce
}

/// The outcome of completing a decryption from state `pre`, given what opening returned:
/// on success the unpadded plaintext is returned and the nonce advances by one; otherwise
/// the state is unchanged.
pub open spec fn complete_decrypt_spec(pre: CipherStateView, post: CipherStateView, opened: Option<Vec<u8>>, r: Result<Vec<u8>>) -> bool {
    &&& post.key == pre.key
    &&& if pre.key is None {
        r == Err::<Vec<u8>, Error>(Error::InvalidState)
    } else if !nonce_usable(pre.nonce) {
        r == Err::<Vec<u8>, Error>(Error::Failure)
    } else {
        match opened {
            None => r == Err::<Vec<u8>, Error>(Error::Failure),
            Some(pt) => match unpad_spec(pt@) {
                None => r == Err::<Vec<u8>, Error>(Error::Failure),
                Some(p) => r is Ok && r->Ok_0@ == p,
            },
        }
    }
    &&& r is Ok ==> post.nonce == pre.nonce + 1
    &&& r is Err ==> post.nonce == pre.nonce
}

impl CipherState {
    /// A cipher state with no key and nonce 0.
    pub fn new() -> (r: Self)
        ensures
            r@.key is None,
            r@.nonce == 0,
    {
        CipherState { k: None, n: 0 }
    }

    /// A cipher state with key `key` and nonce 0.
    pub fn new_with_key_bytes(key: &[u8; 32]) -> (r: Result<Self>)
        ensures
            r is Ok,
            r->Ok_0@.key == Some(key@),
            r->Ok_0@.nonce == 0,
    {
        Ok(CipherState { k: Some(*key), n: 0 })
    }

    /// > Sets `k` = `key`. Sets `n` = `0`.
    pub fn initialize_key_bytes(&mut self, key: &[u8; 32]) -> (r: Result<()>)
        ensures
            r is Ok,
            final(self)@.key == Some(key@),
            final(self)@.nonce == 0,
    {
        self.k = Some(*key);
        self.n = 0;
        Ok(())
    }

    /// > Returns `true` if `k` is non-empty, `false` otherwise.
    pub fn has_key(&self) -> (r: bool)
        ensures
            r == self@.key is Some,
    {
        self.k.is_some()
    }

    /// Get the current nonce.
    pub fn get_nonce(&self) -> (r: u64)
        ensures
            r == self@.nonce,
    {
        self.n
    }

    /// > Sets `n` = `nonce`. This function is used for handling out-of-order transport
    /// > messages.
    pub fn set_nonce(&mut self, nonce: u64)
        ensures
            final(self)@.key == old(self)@.key,
            final(self)@.nonce == nonce,
    {
        self.n = nonce;
    }

    /// The key, when there is one.
    pub fn key_bytes(&self) -> (r: Option<[u8; 32]>)
        ensures
            match r {
                Some(k) => self@.key == Some(k@),
                None => self@.key is None,
            },
    {
        self.k
    }

    /// Check that the current nonce is valid.
    ///
    /// > The maximum `n` value (2<sup>64</sup>-1) is reserved for other use.
    fn check_nonce(&self) -> (r: Result<()>)
        ensures
            r is Ok <==> nonce_usable(self@.nonce),
            r is Err ==> r == Err::<(), Error>(Error::Failure),
    {
        if self.n == u64::MAX {
            return Err(Error::Failure);
        }
        Ok(())
    }

    /// > If `k` is non-empty, returns `ENCRYPT(k, n++, ad, plaintext)`.
    ///
    /// First step: the sealing request for `plaintext` with associated data `ad` under the
    /// current key and nonce. Unlike the Noise protocol, which passes the plaintext
    /// through, this returns an error if `k` is empty.
    pub fn prepare_encrypt_with_ad(&self, ad: &[u8], plaintext: &[u8]) -> (r: Result<
        AeadRequest,
    >)
        requires
            plaintext@.len() + PADDING_MUL <= usize::MAX,
        ensures
            prepare_encrypt_spec(self@, ad@, plaintext@, r),
    {
        let k = match &self.k {
            Some(k) => k,
            None => return Err(Error::InvalidState),
        };
        self.check_nonce()?;
        Ok(encrypt_request(k, self.n, ad, plaintext))
    }

    /// Second step of `ENCRYPT`: from the sealing result (`None` when the AEAD failed),
    /// returns the ciphertext and increments the nonce.
    ///
    /// On an error the state is unchanged.
    pub fn complete_encrypt_with_ad(&mut self, sealed: Option<Vec<u8>>) -> (r: Result<Vec<u8>>)
        ensures
            complete_encrypt_spec(old(self)@, final(self)@, sealed, r),
    {
        if self.k.is_none() {
            return Err(Error::InvalidState);
        }
        self.check_nonce()?;
        match sealed {
            None => Err(Error::Failure),
            Some(ct) => {
                self.n = self.n + 1;
                Ok(ct)
            },
        }
    }

    /// > If `k` is non-empty returns `DECRYPT(k, n++, ad, ciphertext)`.
    ///
    /// First step: the opening request for `ciphertext` with associated data `ad` under the
    /// current key and nonce. Unlike the Noise protocol, which passes the ciphertext
    /// through, this returns an error if `k` is empty.
    pub fn prepare_decrypt_with_ad(&self, ad: &[u8], ciphertext: &[u8]) -> (r: Result<
        AeadRequest,
    >)
        ensures
            prepare_decrypt_spec(self@, ad@, ciphertext@, r),
    {
        let k = match &self.k {
            Some(k) => k,
            None => return Err(Error::InvalidState),
        };
        self.check_nonce()?;
        Ok(decrypt_request(k, self.n, ad, ciphertext))
    }

    /// Second step of `DECRYPT`: from the opening result (`None` when authentication
    /// failed), returns the plaintext without padding and increments the nonce.
    ///
    /// > If an authentication failure occurs in `DECRYPT()` then `n` is not incremented and
    /// > an error is signaled to the caller.
    ///
    /// Malformed padding is treated as an authentication failure.
    pub fn complete_decrypt_with_ad(&mut self, opened: Option<Vec<u8>>) -> (r: Result<Vec<u8>>)
        ensures
            complete_decrypt_spec(old(self)@, final(self)@, opened, r),
    {
        if self.k.is_none() {
            return Err(Error::InvalidState);
        }
        self.check_nonce()?;
        let pt = decrypt_result(opened)?;
        self.n = self.n + 1;
        Ok(pt)
    }

    /// Check equality between two [`CipherState`s][CipherState]: the same nonce, and either
    /// no key on both sides or the same key bytes.
    pub fn same_state(&self, other: &Self) -> (r: bool)
        ensures
            r == (self@ == other@),
    {
        if self.n != other.n {
            return false;
        }
        match (&self.k, &other.k) {
            (None, None) => true,
            (Some(s), Some(o)) => bytes_eq(s.as_slice(), o.as_slice()),
            _ => false,
        }
    }
}

impl Default for CipherState {
    fn default() -> (r: Self)
        ensures
            r@.key is None,
            r@.nonce == 0,
    {
        CipherState::new()
    }
}

impl PartialEq for CipherState {
    fn eq(&self, other: &Self) -> (r: bool) {
        self.same_state(other)
    }
}

impl vstd::std_specs::cmp::PartialEqSpecImpl for CipherState {
    open spec fn obeys_eq_spec() -> bool {
        true
    }

    open spec fn eq_spec(&self, other: &Self) -> bool {
        self@ == other@
    }
}

} // verus!
