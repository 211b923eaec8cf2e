//! Noise hash functions: SHA-256, and HMAC and HKDF built on it.
//!
//! <https://noiseprotocol.org/noise.html#hash-functions>

use crate::bytes::{append, concat, to_vec, zeros};
use crate::error::{Error, Result};
use crate::handshake_type::HandshakeType;
use sha2::Digest;
use vstd::prelude::*;

verus! {

/// The SHA-256 digest of `data`, as computed by the `sha2` crate.
pub uninterp spec fn sha256_spec(data: Seq<u8>) -> [u8; 32];

/// SHA-256 of `data`.
///
/// Calls `sha2::Sha256::digest`; the contract claims only that the result is the SHA-256
/// digest of exactly `data`, under the name `sha256_spec`.
#[verifier::external_body]
pub fn sha256(data: &[u8]) -> (r: [u8; 32])
    ensures
        r == sha256_spec(data@),
{
    sha2::Sha256::digest(data).into()
}

/// The size of a SHA-256 output, in bytes.
pub const HASH_LEN: usize = 32;

/// The SHA-256 block size, in bytes.
pub const BLOCK_LEN: usize = 64;

/// Each byte of `s` XORed with `pad`.
pub open spec fn xor_pad(s: Seq<u8>, pad: u8) -> Seq<u8> {
    Seq::new(s.len(), |i: int| s[i] ^ pad)
}

/// The HMAC key block: keys longer than a block are hashed first, then the key is padded
/// with zeros to a block.
pub open spec fn hmac_key_block(key: Seq<u8>) -> Seq<u8> {
    if key.len() > 64 {
        sha256_spec(key)@ + zeros(32)
    } else {
        key + zeros((64 - key.len()) as nat)
    }
}

/// HMAC-SHA-256 (RFC 2104).
pub open spec fn hmac_spec(key: Seq<u8>, msg: Seq<u8>) -> Seq<u8> {
    let kb = hmac_key_block(key);
    sha256_spec(xor_pad(kb, 0x5c) + sha256_spec(xor_pad(kb, 0x36) + msg)@)@
}

/// HKDF-Extract with SHA-256 (RFC 5869). An empty salt acts as a block of zeros.
pub open spec fn hkdf_extract_spec(salt: Seq<u8>, ikm: Seq<u8>) -> Seq<u8> {
    hmac_spec(salt, ikm)
}

/// The `i`-th HKDF-Expand block `T(i)`; `T(0)` is empty.
pub open spec fn hkdf_block(prk: Seq<u8>, info: Seq<u8>, i: nat) -> Seq<u8>
    decreases i,
{
    if i == 0 {
        Seq::empty()
    } else {
        hmac_spec(prk, hkdf_block(prk, info, (i - 1) as nat) + info + seq![i as u8])
    }
}

/// `T(1) || ... || T(n)`.
pub open spec fn hkdf_blocks(prk: Seq<u8>, info: Seq<u8>, n: nat) -> Seq<u8>
    decreases n,
{
    if n == 0 {
        Seq::empty()
    } else {
        hkdf_blocks(prk, info, (n - 1) as nat) + hkdf_block(prk, info, n)
    }
}

/// HKDF-Expand with SHA-256: the first `len` bytes of `T(1) || T(2) || ...`.
pub open spec fn hkdf_expand_spec(prk: Seq<u8>, info: Seq<u8>, len: nat) -> Seq<u8> {
    hkdf_blocks(prk, info, (len + 31) / 32).subrange(0, len as int)
}

/// HKDF with SHA-256: extract with `salt`, then expand with `info` to `len` bytes.
pub open spec fn hkdf_spec(salt: Seq<u8>, ikm: Seq<u8>, info: Seq<u8>, len: nat) -> Seq<u8> {
    hkdf_expand_spec(hkdf_extract_spec(salt, ikm), info, len)
}

/// The largest output of HKDF-SHA-256, in bytes.
pub const HKDF_MAX_LEN: usize = 8160;

/// HMAC-SHA-256 of `msg` under `key`.
pub fn hmac(key: &[u8], msg: &[u8]) -> (r: [u8; 32])
    ensures
        r@ == hmac_spec(key@, msg@),
{
    let mut kb: Vec<u8>;
    if key.len() > BLOCK_LEN {
        let d = sha256(key);
        kb = to_vec(d.as_slice());
        let z = crate::bytes::zero_vec(32);
        append(&mut kb, z.as_slice());
    } else {
        kb = to_vec(key);
        let z = crate::bytes::zero_vec(BLOCK_LEN - key.len());
        append(&mut kb, z.as_slice());
    }
    assert(kb@ == hmac_key_block(key@));
    let mut inner: Vec<u8> = Vec::new();
    let mut outer: Vec<u8> = Vec::new();
    let mut i: usize = 0;
    while i < BLOCK_LEN
        invariant
            i <= 64,
            kb@.len() == 64,
            inner@ == xor_pad(kb@, 0x36).subrange(0, i as int),
            outer@ == xor_pad(kb@, 0x5c).subrange(0, i as int),
        decreases 64 - i,
    {
        inner.push(kb[i] ^ 0x36u8);
        outer.push(kb[i] ^ 0x5cu8);
        i += 1;
        assert(inner@ =~= xor_pad(kb@, 0x36).subrange(0, i as int));
        assert(outer@ =~= xor_pad(kb@, 0x5c).subrange(0, i as int));
    }
    assert(inner@ =~= xor_pad(kb@, 0x36));
    assert(outer@ =~= xor_pad(kb@, 0x5c));
    append(&mut inner, msg);
    let ih = sha256(inner.as_slice());
    append(&mut outer, ih.as_slice());
    sha256(outer.as_slice())
}

/// HKDF-Extract with SHA-256.
pub fn hkdf_extract(salt: &[u8], ikm: &[u8]) -> (r: [u8; 32])
    ensures
        r@ == hkdf_extract_spec(salt@, ikm@),
{
    hmac(salt, ikm)
}

/// HKDF-Expand with SHA-256, to `len` bytes.
pub fn hkdf_expand(prk: &[u8], info: &[u8], len: usize) -> (r: Vec<u8>)
    requires
        len <= HKDF_MAX_LEN,
    ensures
        r@ == hkdf_expand_spec(prk@, info@, len as nat),
        r@.len() == len,
{
    let mut out: Vec<u8> = Vec::new();
    let mut t: Vec<u8> = Vec::new();
    let mut n: usize = 0;
    while out.len() < len
        invariant
            len <= 8160,
            out@.len() == 32 * n,
            n <= (len + 31) / 32,
            out@ == hkdf_blocks(prk@, info@, n as nat),
            t@ == hkdf_block(prk@, info@, n as nat),
        decreases (len + 31) / 32 - n,
    {
        n += 1;
        let mut block = concat(t.as_slice(), info);
        block.push(n as u8);
        assert(block@ == hkdf_block(prk@, info@, (n - 1) as nat) + info@ + seq![n as u8]);
        let next = hmac(prk, block.as_slice());
        assert(next@ == hkdf_block(prk@, info@, n as nat));
        t = to_vec(next.as_slice());
        append(&mut out, next.as_slice());
        assert(out@ == hkdf_blocks(prk@, info@, n as nat));
    }
    assert(n == (len + 31) / 32);
    out.truncate(len);
    out
}

/// HKDF with SHA-256: extract with `salt`, then expand with `info` to `len` bytes.
pub fn hkdf(salt: &[u8], ikm: &[u8], info: &[u8], len: usize) -> (r: Vec<u8>)
    requires
        len <= HKDF_MAX_LEN,
    ensures
        r@ == hkdf_spec(salt@, ikm@, info@, len as nat),
        r@.len() == len,
{
    let prk = hkdf_extract(salt, ikm);
    hkdf_expand(prk.as_slice(), info, len)
}

/// Noise version of `HKDF(chaining_key, ikm, num_outputs)`: `count` outputs of
/// [`HASH_LEN`] bytes each, with an empty `info`.
///
/// Fails when more than 255 blocks are asked for.
pub fn noise_hkdf(salt: &[u8], ikm: &[u8], count: usize) -> (r: Result<Vec<u8>>)
    ensures
        match r {
            Ok(v) => count * 32 <= HKDF_MAX_LEN && v@ == hkdf_spec(
                salt@,
                ikm@,
                Seq::empty(),
                (count * 32) as nat,
            ) && v@.len() == count * 32,
            Err(e) => count * 32 > HKDF_MAX_LEN && e == Error::Failure,
        },
{
    if count > HKDF_MAX_LEN / HASH_LEN {
        return Err(Error::Failure);
    }
    let empty: [u8; 0] = [];
    assert(empty@ =~= Seq::<u8>::empty());
    Ok(hkdf(salt, ikm, empty.as_slice(), count * HASH_LEN))
}

/// The Noise protocol name of a handshake, in ASCII:
/// `Noise_KNpsk0_P256_AESGCM_SHA256` or `Noise_NKpsk0_P256_AESGCM_SHA256`.
pub open spec fn protocol_name_spec(ht: HandshakeType) -> Seq<u8> {
    match ht {
        HandshakeType::KNpsk0 => seq![78u8, 111u8, 105u8, 115u8, 101u8, 95u8, 75u8, 78u8, 112u8, 115u8, 107u8, 48u8, 95u8, 80u8, 50u8, 53u8, 54u8, 95u8, 65u8, 69u8, 83u8, 71u8, 67u8, 77u8, 95u8, 83u8, 72u8, 65u8, 50u8, 53u8, 54u8],
        HandshakeType::NKpsk0 => seq![78u8, 111u8, 105u8, 115u8, 101u8, 95u8, 78u8, 75u8, 112u8, 115u8, 107u8, 48u8, 95u8, 80u8, 50u8, 53u8, 54u8, 95u8, 65u8, 69u8, 83u8, 71u8, 67u8, 77u8, 95u8, 83u8, 72u8, 65u8, 50u8, 53u8, 54u8],
    }
}

/// The ASCII bytes of a string of ASCII characters.
pub open spec fn ascii_bytes(s: Seq<char>) -> Seq<u8> {
    s.map_values(|c: char| c as u8)
}

/// The Noise protocol name of a handshake names its own pattern: `Noise_`, then `KNpsk0`
/// for a handshake where the initiator's static key is known to the responder and
/// `NKpsk0` for one where the responder's is known to the initiator, then the primitives
/// `_P256_AESGCM_SHA256`, all in ASCII.
pub proof fn lemma_protocol_name(ht: HandshakeType)
    ensures
        protocol_name_spec(ht).len() == 31,
        protocol_name_spec(ht).subrange(0, 6) == ascii_bytes(seq!['N', 'o', 'i', 's', 'e', '_']),
        ht == HandshakeType::KNpsk0 ==> protocol_name_spec(ht).subrange(6, 12) == ascii_bytes(
            seq!['K', 'N', 'p', 's', 'k', '0'],
        ),
        ht == HandshakeType::NKpsk0 ==> protocol_name_spec(ht).subrange(6, 12) == ascii_bytes(
            seq!['N', 'K', 'p', 's', 'k', '0'],
        ),
        protocol_name_spec(ht).subrange(12, 31) == ascii_bytes(
            seq!['_', 'P', '2', '5', '6', '_', 'A', 'E', 'S', 'G', 'C', 'M', '_', 'S', 'H', 'A', '2', '5', '6'],
        ),
{
    let name = protocol_name_spec(ht);
    assert(name.subrange(0, 6) =~= ascii_bytes(seq!['N', 'o', 'i', 's', 'e', '_']));
    if ht == HandshakeType::KNpsk0 {
        assert(name.subrange(6, 12) =~= ascii_bytes(seq!['K', 'N', 'p', 's', 'k', '0']));
    } else {
        assert(name.subrange(6, 12) =~= ascii_bytes(seq!['N', 'K', 'p', 's', 'k', '0']));
    }
    assert(name.subrange(12, 31) =~= ascii_bytes(
        seq!['_', 'P', '2', '5', '6', '_', 'A', 'E', 'S', 'G', 'C', 'M', '_', 'S', 'H', 'A', '2', '5', '6'],
    ));
}

/// [Noise Hash trait][0]: the hash function of a handshake, with its protocol names.
///
/// This currently only supports SHA-256.
///
/// [0]: https://noiseprotocol.org/noise.html#hash-functions
pub trait Hash {
    /// The size in bytes of the hash output.
    fn hash_len() -> (r: usize)
        ensures
            r == HASH_LEN;

    /// The Noise protocol name identifier for the handshake.
    fn protocol_name(ht: HandshakeType) -> (r: Vec<u8>)
        ensures
            r@ == protocol_name_spec(ht);
}

/// Noise HKDF over a hash.
pub trait HashHkdf {
    /// Noise version of `HKDF(chaining_key, ikm, num_outputs)`.
    ///
    /// `count` is the number of keys (outputs) to derive. Returns a buffer of
    /// `HASH_LEN * count` bytes.
    fn hkdf(salt: &[u8], ikm: &[u8], count: usize) -> (r: Result<Vec<u8>>)
        ensures
            match r {
                Ok(v) => count * 32 <= HKDF_MAX_LEN && v@ == hkdf_spec(
                    salt@,
                    ikm@,
                    Seq::empty(),
                    (count * 32) as nat,
                ),
                Err(e) => count * 32 > HKDF_MAX_LEN && e == Error::Failure,
            };
}

/// The SHA-256 hash, for Noise.
pub struct Sha256;

impl Hash for Sha256 {
    fn hash_len() -> (r: usize) {
        HASH_LEN
    }

    fn protocol_name(ht: HandshakeType) -> (r: Vec<u8>) {
        // These are the only names used by caBLE.
        let name: [u8; 31] = match ht {
            HandshakeType::KNpsk0 => [78, 111, 105, 115, 101, 95, 75, 78, 112, 115, 107, 48, 95, 80, 50, 53, 54, 95, 65, 69, 83, 71, 67, 77, 95, 83, 72, 65, 50, 53, 54],
            HandshakeType::NKpsk0 => [78, 111, 105, 115, 101, 95, 78, 75, 112, 115, 107, 48, 95, 80, 50, 53, 54, 95, 65, 69, 83, 71, 67, 77, 95, 83, 72, 65, 50, 53, 54],
        };
        let r = to_vec(name.as_slice());
        assert(r@ =~= protocol_name_spec(ht));
        r
    }
}

impl HashHkdf for Sha256 {
    fn hkdf(salt: &[u8], ikm: &[u8], count: usize) -> (r: Result<Vec<u8>>) {
        noise_hkdf(salt, ikm, count)
    }
}

/// An HMAC-SHA-256 output is 32 bytes.
pub proof fn lemma_hmac_len(key: Seq<u8>, msg: Seq<u8>)
    ensures
        hmac_spec(key, msg).len() == 32,
{
}

} // verus!
