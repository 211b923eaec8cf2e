//! Noise cipher functions: AES-256-GCM with an 8-byte counter nonce, over plaintext padded
//! to a multiple of 32 bytes.
//!
//! <https://noiseprotocol.org/noise.html#cipher-functions>
//!
//! The AEAD itself is performed by the caller on an [`AeadRequest`]; this module prepares
//! the request (nonce and padding) and strips the padding from what the AEAD returns.

use crate::bytes::{append, to_vec, zeros};
use crate::error::{Error, Result};
use vstd::prelude::*;

verus! {

/// Plaintexts are padded to a multiple of this many bytes.
pub const PADDING_MUL: usize = 32;

/// The length of an AES-GCM nonce, in bytes.
pub const NONCE_LEN: usize = 12;

/// The length of an AES-256 key, in bytes.
pub const KEY_LENGTH: usize = 32;

/// The length of an AES-GCM authentication tag, in bytes.
pub const TAG_LEN: usize = 16;

/// The padded length of `len` bytes: the next multiple of 32 strictly above `len`.
pub open spec fn spec_pad_len(len: nat) -> nat {
    (len / 32 + 1) * 32
}

/// The length of a padded buffer for `len` bytes of plaintext.
///
/// There is always at least one byte of padding, which records the amount of padding.
pub fn pad_len(len: usize) -> (r: usize)
    requires
        len + PADDING_MUL <= usize::MAX,
    ensures
        r == spec_pad_len(len as nat),
        r > len,
        r <= len + 32,
        r % 32 == 0,
{
    let s = len + PADDING_MUL;
    let o = s & !(PADDING_MUL - 1);
    assert(s & !31usize == s - s % 32) by (bit_vector);
    o
}

/// `pt` padded: zeros, then a final byte holding the number of zeros.
pub open spec fn pad_spec(pt: Seq<u8>) -> Seq<u8> {
    let p = spec_pad_len(pt.len());
    pt + zeros((p - pt.len() - 1) as nat) + seq![(p - pt.len() - 1) as u8]
}

/// `pt` with its padding removed, or `None` when the padding is malformed: the final byte
/// says how many zero bytes precede it, and the padding can be at most 32 bytes.
pub open spec fn unpad_spec(pt: Seq<u8>) -> Option<Seq<u8>> {
    if pt.len() == 0 {
        None
    } else {
        let padding_len = pt.last() + 1;
        if padding_len > pt.len() || padding_len > 32 {
            None
        } else {
            Some(pt.subrange(0, pt.len() - padding_len))
        }
    }
}

/// Pads `plaintext` to [`pad_len`] bytes.
pub fn pad(plaintext: &[u8]) -> (r: Vec<u8>)
    requires
        plaintext@.len() + PADDING_MUL <= usize::MAX,
    ensures
        r@ == pad_spec(plaintext@),
        r@.len() == spec_pad_len(plaintext@.len()),
{
    let len = plaintext.len();
    let padded_len = pad_len(len);
    let mut pt = to_vec(plaintext);
    let z = crate::bytes::zero_vec(padded_len - len - 1);
    append(&mut pt, z.as_slice());
    pt.push((padded_len - len - 1) as u8);
    pt
}

/// Removes the padding from a decrypted buffer.
pub fn unpad(pt: Vec<u8>) -> (r: Option<Vec<u8>>)
    ensures
        match r {
            Some(v) => unpad_spec(pt@) == Some(v@),
            None => unpad_spec(pt@) is None,
        },
{
    let mut pt = pt;
    if pt.len() == 0 {
        return None;
    }
    let padding_len = pt[pt.len() - 1] as usize + 1;
    if padding_len > pt.len() || padding_len > PADDING_MUL {
        return None;
    }
    let keep = pt.len() - padding_len;
    pt.truncate(keep);
    Some(pt)
}

/// The AES-GCM nonce for counter `n`: four zero bytes, then `n` in big-endian order.
pub open spec fn nonce_spec(n: u64) -> Seq<u8> {
    Seq::new(12, |i: int| if i < 4 { 0u8 } else { ((n >> (8 * (11 - i)) as u64) & 0xff) as u8 })
}

/// Builds the AES-GCM nonce for counter `n`.
pub fn nonce_bytes(n: u64) -> (r: [u8; NONCE_LEN])
    ensures
        r@ == nonce_spec(n),
{
    let mut nonce = [0u8; NONCE_LEN];
    let mut i: usize = 4;
    while i < NONCE_LEN
        invariant
            4 <= i <= 12,
            nonce@.len() == 12,
            forall|j: int| 0 <= j < 4 ==> nonce@[j] == 0u8,
            forall|j: int| 4 <= j < i ==> nonce@[j] == ((n >> (8 * (11 - j)) as u64) & 0xff) as u8,
        decreases 12 - i,
    {
        let shift: u64 = (8 * (11 - i)) as u64;
        nonce[i] = ((n >> shift) & 0xff) as u8;
        i += 1;
    }
    assert(nonce@ =~= nonce_spec(n));
    nonce
}

/// An AEAD operation for the caller to perform with AES-256-GCM: seal or open `data`
/// under `key` and `nonce`, with associated data `aad`.
pub struct AeadRequest {
    /// The AES-256 key.
    pub key: [u8; KEY_LENGTH],
    /// The nonce.
    pub nonce: [u8; NONCE_LEN],
    /// The associated data.
    pub aad: Vec<u8>,
    /// The padded plaintext to seal, or the ciphertext to open.
    pub data: Vec<u8>,
}

/// Prepares `ENCRYPT(k, n, ad, plaintext)`: the sealing request for `plaintext`, padded,
/// under key `k` and counter nonce `n`.
///
/// Sealing yields a ciphertext 16 bytes longer than the padded plaintext.
pub fn encrypt_request(k: &[u8; KEY_LENGTH], n: u64, aad: &[u8], plaintext: &[u8]) -> (r:
    AeadRequest)
    requires
        plaintext@.len() + PADDING_MUL <= usize::MAX,
    ensures
        r.key@ == k@,
        r.nonce@ == nonce_spec(n),
        r.aad@ == aad@,
        r.data@ == pad_spec(plaintext@),
{
    AeadRequest { key: *k, nonce: nonce_bytes(n), aad: to_vec(aad), data: pad(plaintext) }
}

/// Prepares `DECRYPT(k, n, ad, ciphertext)`: the opening request for `ciphertext` under key
/// `k` and counter nonce `n`.
pub fn decrypt_request(k: &[u8; KEY_LENGTH], n: u64, aad: &[u8], ciphertext: &[u8]) -> (r:
    AeadRequest)
    ensures
        r.key@ == k@,
        r.nonce@ == nonce_spec(n),
        r.aad@ == aad@,
        r.data@ == ciphertext@,
{
    AeadRequest { key: *k, nonce: nonce_bytes(n), aad: to_vec(aad), data: to_vec(ciphertext) }
}

/// Finishes `DECRYPT`: from what opening the ciphertext gave (`None` when authentication
/// failed), the plaintext without its padding.
pub fn decrypt_result(opened: Option<Vec<u8>>) -> (r: Result<Vec<u8>>)
    ensures
        match opened {
            None => r == Err::<Vec<u8>, Error>(Error::Failure),
            Some(pt) => match unpad_spec(pt@) {
                None => r == Err::<Vec<u8>, Error>(Error::Failure),
                Some(p) => r is Ok && r->Ok_0@ == p,
            },
        },
{
    match opened {
        None => Err(Error::Failure),
        Some(pt) => match unpad(pt) {
            None => Err(Error::Failure),
            Some(p) => Ok(p),
        },
    }
}

/// Padding then unpadding gives the plaintext back.
pub proof fn lemma_unpad_pad(pt: Seq<u8>)
    ensures
        unpad_spec(pad_spec(pt)) == Some(pt),
{
    let p = spec_pad_len(pt.len());
    let padded = pad_spec(pt);
    assert(padded.len() == p);
    assert(padded.last() == (p - pt.len() - 1) as u8);
    assert(padded.subrange(0, pt.len() as int) =~= pt);
}

/// Distinct counters give distinct AES-GCM nonces.
pub proof fn lemma_nonce_injective(n: u64, m: u64)
    requires
        nonce_spec(n) == nonce_spec(m),
    ensures
        n == m,
{
    assert(nonce_spec(n)[4] == nonce_spec(m)[4]);
    assert(nonce_spec(n)[4] == ((n >> 56u64) & 0xff) as u8);
    assert(nonce_spec(m)[4] == ((m >> 56u64) & 0xff) as u8);
    assert(nonce_spec(n)[5] == nonce_spec(m)[5]);
    assert(nonce_spec(n)[5] == ((n >> 48u64) & 0xff) as u8);
    assert(nonce_spec(m)[5] == ((m >> 48u64) & 0xff) as u8);
    assert(nonce_spec(n)[6] == nonce_spec(m)[6]);
    assert(nonce_spec(n)[6] == ((n >> 40u64) & 0xff) as u8);
    assert(nonce_spec(m)[6] == ((m >> 40u64) & 0xff) as u8);
    assert(nonce_spec(n)[7] == nonce_spec(m)[7]);
    assert(nonce_spec(n)[7] == ((n >> 32u64) & 0xff) as u8);
    assert(nonce_spec(m)[7] == ((m >> 32u64) & 0xff) as u8);
    assert(nonce_spec(n)[8] == nonce_spec(m)[8]);
    assert(nonce_spec(n)[8] == ((n >> 24u64) & 0xff) as u8);
    assert(nonce_spec(m)[8] == ((m >> 24u64) & 0xff) as u8);
    assert(nonce_spec(n)[9] == nonce_spec(m)[9]);
    assert(nonce_spec(n)[9] == ((n >> 16u64) & 0xff) as u8);
    assert(nonce_spec(m)[9] == ((m >> 16u64) & 0xff) as u8);
    assert(nonce_spec(n)[10] == nonce_spec(m)[10]);
    assert(nonce_spec(n)[10] == ((n >> 8u64) & 0xff) as u8);
    assert(nonce_spec(m)[10] == ((m >> 8u64) & 0xff) as u8);
    assert(nonce_spec(n)[11] == nonce_spec(m)[11]);
    assert(nonce_spec(n)[11] == ((n >> 0u64) & 0xff) as u8);
    assert(nonce_spec(m)[11] == ((m >> 0u64) & 0xff) as u8);
    assert(n == m) by (bit_vector)
        requires
            ((n >> 56u64) & 0xff) as u8 == ((m >> 56u64) & 0xff) as u8,
            ((n >> 48u64) & 0xff) as u8 == ((m >> 48u64) & 0xff) as u8,
            ((n >> 40u64) & 0xff) as u8 == ((m >> 40u64) & 0xff) as u8,
            ((n >> 32u64) & 0xff) as u8 == ((m >> 32u64) & 0xff) as u8,
            ((n >> 24u64) & 0xff) as u8 == ((m >> 24u64) & 0xff) as u8,
            ((n >> 16u64) & 0xff) as u8 == ((m >> 16u64) & 0xff) as u8,
            ((n >> 8u64) & 0xff) as u8 == ((m >> 8u64) & 0xff) as u8,
            ((n >> 0u64) & 0xff) as u8 == ((m >> 0u64) & 0xff) as u8,
    ;
}

} // verus!
