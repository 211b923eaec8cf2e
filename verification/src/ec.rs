//! EC helper functions: P-256 public keys in SEC 1 and DER (SubjectPublicKeyInfo) form.

use crate::bytes::{append, to_vec};
use crate::error::{Error, Result};
use vstd::prelude::*;

verus! {

/// The length of an uncompressed SEC 1 P-256 point.
pub const P256_X962_LENGTH: usize = 65;

/// The length of a compressed SEC 1 P-256 point.
pub const P256_X962_COMPRESSED_LENGTH: usize = 33;

/// The length of a P-256 public key in DER format.
pub const P256_X962_DER_LENGTH: usize = 91;

/// The length of an uncompressed point wrapped in a DER octet string.
pub const P256_X962_DER_ALT_LENGTH: usize = 67;

/// The static DER header of an uncompressed SEC 1 P-256 point: a SubjectPublicKeyInfo
/// SEQUENCE with the `id-ecPublicKey` / `secp256r1` AlgorithmIdentifier, and a BIT STRING
/// header for the 65-byte point.
pub open spec fn der_header_spec() -> Seq<u8> {
    seq![
        0x30u8, 0x59u8, 0x30u8, 0x13u8, 0x06u8, 0x07u8, 0x2au8, 0x86u8, 0x48u8, 0xceu8, 0x3du8,
        0x02u8, 0x01u8, 0x06u8, 0x08u8, 0x2au8, 0x86u8, 0x48u8, 0xceu8, 0x3du8, 0x03u8, 0x01u8,
        0x07u8, 0x03u8, 0x42u8, 0x00u8,
    ]
}

/// The DER octet string header of an uncompressed point, as NSS reports it from
/// `key_data_alt`: OCTET STRING, 65 bytes, then the uncompressed marker 4.
pub open spec fn der_alt_header_spec() -> Seq<u8> {
    seq![0x04u8, 0x41u8, 0x04u8]
}

/// `true` when `key` is an uncompressed SEC 1 point: 65 bytes starting with 4.
pub open spec fn is_uncompressed_sec1(key: Seq<u8>) -> bool {
    key.len() == 65 && key[0] == 4
}

/// `true` when `key` is a compressed SEC 1 point: 33 bytes starting with 2 or 3.
pub open spec fn is_compressed_sec1(key: Seq<u8>) -> bool {
    key.len() == 33 && (key[0] == 2 || key[0] == 3)
}

/// Convert an uncompressed SEC 1 P-256 point into DER format for NSS.
///
/// Fails with [`Error::InvalidArgument`] when the point is not in uncompressed form.
pub fn sec1_ec2_key_to_der(key: &[u8; P256_X962_LENGTH]) -> (r: Result<Vec<u8>>)
    ensures
        key@[0] != 4 ==> r == Err::<Vec<u8>, Error>(Error::InvalidArgument),
        key@[0] == 4 ==> r is Ok && r->Ok_0@ == der_header_spec() + key@,
        r is Ok ==> r->Ok_0@.len() == P256_X962_DER_LENGTH,
{
    if key[0] != 0x04 {
        // incorrect format
        return Err(Error::InvalidArgument);
    }
    let header: [u8; 26] = [
        0x30, 0x59, 0x30, 0x13, 0x06, 0x07, 0x2a, 0x86, 0x48, 0xce, 0x3d, 0x02, 0x01, 0x06, 0x08,
        0x2a, 0x86, 0x48, 0xce, 0x3d, 0x03, 0x01, 0x07, 0x03, 0x42, 0x00,
    ];
    assert(header@ =~= der_header_spec());
    let mut o = to_vec(header.as_slice());
    append(&mut o, key.as_slice());
    Ok(o)
}

/// The form of the public key bytes that NSS's `key_data()` reports for a P-256 key.
pub enum KeyDataForm {
    /// Already an uncompressed point.
    Uncompressed([u8; P256_X962_LENGTH]),
    /// A compressed point: the uncompressed form must be asked for with `key_data_alt()`.
    Compressed,
    /// Some other key type.
    Invalid,
}

/// First step of converting a P-256 public key to uncompressed SEC 1 bytes: classify what
/// `key_data()` returned.
pub fn classify_key_data(pub_bytes: &[u8]) -> (r: KeyDataForm)
    ensures
        is_uncompressed_sec1(pub_bytes@) ==> (r matches KeyDataForm::Uncompressed(k) && k@
            == pub_bytes@),
        !is_uncompressed_sec1(pub_bytes@) && is_compressed_sec1(pub_bytes@) ==> r is Compressed,
        !is_uncompressed_sec1(pub_bytes@) && !is_compressed_sec1(pub_bytes@) ==> r is Invalid,
{
    if pub_bytes.len() == P256_X962_LENGTH && pub_bytes[0] == 4 {
        // Already in uncompressed form.
        return KeyDataForm::Uncompressed(crate::ec::to_array65(pub_bytes));
    } else if pub_bytes.len() != P256_X962_COMPRESSED_LENGTH || (pub_bytes[0] != 2
        && pub_bytes[0] != 3) {
        // Other key type that is not the compressed form.
        return KeyDataForm::Invalid;
    }
    KeyDataForm::Compressed
}

/// Second step, for compressed keys: the uncompressed SEC 1 bytes from what
/// `key_data_alt()` returned, which must be the point wrapped in a DER octet string.
pub fn uncompressed_from_key_data_alt(pub_bytes: &[u8]) -> (r: Result<[u8; P256_X962_LENGTH]>)
    ensures
        pub_bytes@.len() == 67 && pub_bytes@.subrange(0, 3) == der_alt_header_spec() ==> r is Ok
            && r->Ok_0@ == pub_bytes@.subrange(2, 67),
        !(pub_bytes@.len() == 67 && pub_bytes@.subrange(0, 3) == der_alt_header_spec()) ==> r
            == Err::<[u8; 65], Error>(Error::InvalidArgument),
{
    if pub_bytes.len() != P256_X962_DER_ALT_LENGTH || pub_bytes[0] != 0x04 || pub_bytes[1]
        != 0x41 || pub_bytes[2] != 0x04 {
        assert(pub_bytes@.len() == 67 ==> (pub_bytes@.subrange(0, 3) == der_alt_header_spec()
            <==> (pub_bytes@[0] == 4 && pub_bytes@[1] == 0x41 && pub_bytes@[2] == 4)));
        // Other key type that is not the uncompressed form.
        return Err(Error::InvalidArgument);
    }
    assert(pub_bytes@.subrange(0, 3) =~= der_alt_header_spec());
    // Uncompressed SEC.1 bytes wrapped in a DER octet string.
    Ok(to_array65(&pub_bytes[2..67]))
}

/// The 65 bytes of `s` as an array.
pub fn to_array65(s: &[u8]) -> (r: [u8; P256_X962_LENGTH])
    requires
        s@.len() == 65,
    ensures
        r@ == s@,
{
    let mut r = [0u8; P256_X962_LENGTH];
    let mut i: usize = 0;
    while i < P256_X962_LENGTH
        invariant
            i <= 65,
            s@.len() == 65,
            r@.len() == 65,
            forall|j: int| 0 <= j < i ==> r@[j] == s@[j],
        decreases 65 - i,
    {
        r[i] = s[i];
        i += 1;
    }
    assert(r@ =~= s@);
    r
}

/// The compressed SEC 1 form of an uncompressed point: 2 or 3 by the parity of the
/// y-coordinate, then the x-coordinate.
pub open spec fn compressed_sec1_spec(key: Seq<u8>) -> Seq<u8> {
    seq![(2 + key[64] % 2) as u8] + key.subrange(1, 33)
}

/// Convert an uncompressed SEC 1 P-256 point to its compressed form, as a caBLE QR code
/// carries the initiator's identity key.
///
/// Fails with [`Error::InvalidArgument`] when the point is not in uncompressed form.
pub fn ec2_pubkey_to_compressed_sec1(key: &[u8; P256_X962_LENGTH]) -> (r: Result<[u8; P256_X962_COMPRESSED_LENGTH]>)
    ensures
        key@[0] != 4 ==> r == Err::<[u8; 33], Error>(Error::InvalidArgument),
        key@[0] == 4 ==> r is Ok && r->Ok_0@ == compressed_sec1_spec(key@),
        r matches Ok(c) ==> is_compressed_sec1(c@),
{
    if key[0] != 0x04 {
        return Err(Error::InvalidArgument);
    }
    let mut r = [0u8; P256_X962_COMPRESSED_LENGTH];
    r[0] = 2 + key[64] % 2;
    let mut i: usize = 1;
    while i < P256_X962_COMPRESSED_LENGTH
        invariant
            1 <= i <= 33,
            r@.len() == 33,
            r@[0] == 2 + key@[64] % 2,
            forall|j: int| 1 <= j < i ==> r@[j] == key@[j],
        decreases 33 - i,
    {
        r[i] = key[i];
        i += 1;
    }
    assert(r@ =~= compressed_sec1_spec(key@));
    Ok(r)
}

/// The static DER header of a compressed SEC 1 P-256 point: the SubjectPublicKeyInfo
/// SEQUENCE with the `id-ecPublicKey` / `secp256r1` AlgorithmIdentifier, and a BIT STRING
/// header for the 33-byte point.
pub open spec fn der_compressed_header_spec() -> Seq<u8> {
    seq![
        0x30u8, 0x39u8, 0x30u8, 0x13u8, 0x06u8, 0x07u8, 0x2au8, 0x86u8, 0x48u8, 0xceu8, 0x3du8,
        0x02u8, 0x01u8, 0x06u8, 0x08u8, 0x2au8, 0x86u8, 0x48u8, 0xceu8, 0x3du8, 0x03u8, 0x01u8,
        0x07u8, 0x03u8, 0x22u8, 0x00u8,
    ]
}

/// Convert a compressed SEC 1 P-256 point into DER format for NSS to import.
///
/// Fails with [`Error::InvalidArgument`] when the point is not in compressed form.
pub fn compressed_sec1_to_der(key: &[u8; P256_X962_COMPRESSED_LENGTH]) -> (r: Result<Vec<u8>>)
    ensures
        key@[0] != 2 && key@[0] != 3 ==> r == Err::<Vec<u8>, Error>(Error::InvalidArgument),
        key@[0] == 2 || key@[0] == 3 ==> r is Ok && r->Ok_0@ == der_compressed_header_spec() + key@,
{
    if key[0] != 0x02 && key[0] != 0x03 {
        return Err(Error::InvalidArgument);
    }
    let header: [u8; 26] = [
        0x30, 0x39, 0x30, 0x13, 0x06, 0x07, 0x2a, 0x86, 0x48, 0xce, 0x3d, 0x02, 0x01, 0x06, 0x08,
        0x2a, 0x86, 0x48, 0xce, 0x3d, 0x03, 0x01, 0x07, 0x03, 0x22, 0x00,
    ];
    assert(header@ =~= der_compressed_header_spec());
    let mut o = to_vec(header.as_slice());
    append(&mut o, key.as_slice());
    Ok(o)
}

} // verus!
