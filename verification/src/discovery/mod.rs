//! caBLE (hybrid transport) discovery: tunnel servers, key derivation and EIDs.

use crate::bytes::{append, to_array32, to_vec};
use crate::error::{Error, Result};
use crate::hash::{hkdf, hkdf_spec, sha256, sha256_spec, HKDF_MAX_LEN};
use crate::le::{le_u64, le_value};
use vstd::arithmetic::div_mod::lemma_div_denominator;
use vstd::arithmetic::power::{lemma_pow_positive, pow};
use vstd::prelude::*;
use vstd::string::*;

pub mod cbor;
pub mod suffix;
pub mod params;
pub mod eid;
pub mod authenticator_session;
pub mod initiator_session;
pub mod service;

pub use crate::discovery::suffix::Suffix;
pub use crate::discovery::params::Params;
pub use crate::discovery::eid::Eid;
pub use crate::discovery::authenticator_session::AuthenticatorSession;
pub use crate::discovery::initiator_session::InitiatorSession;
pub use crate::discovery::service::{CtapCableDiscoveryParams, CtapCableDiscoveryService};

verus! {

/// The domains of the tunnel servers known by number.
pub open spec fn known_tunnel_server_domain(id: nat) -> Option<Seq<char>> {
    if id == 0 {
        Some(seq!['c', 'a', 'b', 'l', 'e', '.', 'u', 'a', '5', 'v', '.', 'c', 'o', 'm'])
    } else if id == 1 {
        Some(seq!['c', 'a', 'b', 'l', 'e', '.', 'a', 'u', 't', 'h', '.', 'c', 'o', 'm'])
    } else {
        None
    }
}

/// The number of tunnel server domains known by number.
pub const KNOWN_TUNNEL_SERVER_DOMAIN_COUNT: u16 = 2;

/// The salt hashed with a tunnel server ID: `caBLEv2 tunnel server domain`.
pub open spec fn tunnel_server_salt() -> Seq<u8> {
    seq![
        0x63u8, 0x61u8, 0x42u8, 0x4cu8, 0x45u8, 0x76u8, 0x32u8, 0x20u8, 0x74u8, 0x75u8, 0x6eu8,
        0x6eu8, 0x65u8, 0x6cu8, 0x20u8, 0x73u8, 0x65u8, 0x72u8, 0x76u8, 0x65u8, 0x72u8, 0x20u8,
        0x64u8, 0x6fu8, 0x6du8, 0x61u8, 0x69u8, 0x6eu8,
    ]
}

/// The base32 alphabet of generated tunnel server names.
pub open spec fn base32_alphabet() -> Seq<char> {
    seq![
        'a', 'b', 'c', 'd', 'e', 'f', 'g', 'h', 'i', 'j', 'k', 'l', 'm', 'n', 'o', 'p', 'q', 'r',
        's', 't', 'u', 'v', 'w', 'x', 'y', 'z', '2', '3', '4', '5', '6', '7',
    ]
}

/// The top-level domains of generated tunnel server names.
pub open spec fn tunnel_server_tld(i: nat) -> Seq<char> {
    if i == 0 {
        seq!['.', 'c', 'o', 'm']
    } else if i == 1 {
        seq!['.', 'o', 'r', 'g']
    } else if i == 2 {
        seq!['.', 'n', 'e', 't']
    } else {
        seq!['.', 'i', 'n', 'f', 'o']
    }
}

/// `v` in base32, least significant digit first, with no digits for 0.
pub open spec fn base32_digits(v: nat) -> Seq<char>
    decreases v,
{
    if v == 0 {
        Seq::empty()
    } else {
        seq![base32_alphabet()[(v % 32) as int]] + base32_digits(v / 32)
    }
}

/// The hash from which a tunnel server domain is generated:
/// `SHA-256("caBLEv2 tunnel server domain" || id (little-endian) || 0)`.
pub open spec fn tunnel_server_hash(id: u16) -> Seq<u8> {
    sha256_spec(tunnel_server_salt() + seq![(id % 256) as u8, (id / 256) as u8] + seq![0u8])@
}

/// The domain for a tunnel server ID: known domains for IDs below 256, and otherwise a
/// domain generated from the first 8 bytes of [`tunnel_server_hash`] read as a little-endian
/// integer `v`: the top-level domain is chosen by `v % 4`, and the name is `v / 4` in base32.
pub open spec fn tunnel_server_domain(id: u16) -> Option<Seq<char>> {
    if id < 256 {
        known_tunnel_server_domain(id as nat)
    } else {
        let v = le_value(tunnel_server_hash(id).subrange(0, 8));
        Some(seq!['c', 'a', 'b', 'l', 'e', '.'] + base32_digits(v / 4) + tunnel_server_tld(v % 4))
    }
}

/// `base32_digits(n)` writes `n` in base 32 with the digits
/// `abcdefghijklmnopqrstuvwxyz234567`, least significant first: its `k`-th character is
/// the digit `(n / 32^k) % 32`, and it has exactly as many characters as `n` has digits
/// (none for 0).
pub proof fn lemma_base32_digits(n: nat)
    ensures
        forall|k: int|
            0 <= k < base32_digits(n).len() ==> #[trigger] base32_digits(n)[k] == seq![
                'a', 'b', 'c', 'd', 'e', 'f', 'g', 'h', 'i', 'j', 'k', 'l', 'm', 'n', 'o', 'p', 'q',
                'r', 's', 't', 'u', 'v', 'w', 'x', 'y', 'z', '2', '3', '4', '5', '6', '7',
            ][((n as int) / pow(32, k as nat)) % 32],
        (n as int) / pow(32, base32_digits(n).len()) == 0,
        base32_digits(n).len() > 0 ==> (n as int) / pow(32, (base32_digits(n).len() - 1) as nat) > 0,
    decreases n,
{
    let alpha = seq![
        'a', 'b', 'c', 'd', 'e', 'f', 'g', 'h', 'i', 'j', 'k', 'l', 'm', 'n', 'o', 'p', 'q',
        'r', 's', 't', 'u', 'v', 'w', 'x', 'y', 'z', '2', '3', '4', '5', '6', '7',
    ];
    assert(base32_alphabet() =~= alpha);
    reveal(pow);
    if n == 0 {
        assert(pow(32, 0) == 1);
    } else {
        let m = n / 32;
        let ds = base32_digits(n);
        let dm = base32_digits(m);
        lemma_base32_digits(m);
        assert(ds == seq![alpha[(n % 32) as int]] + dm);
        assert(pow(32, 0) == 1);
        assert forall|k: int| 0 <= k < ds.len() implies #[trigger] ds[k] == alpha[((n as int) / pow(32, k as nat)) % 32] by {
            if k > 0 {
                assert(ds[k] == dm[k - 1]);
                let q = pow(32, (k - 1) as nat);
                lemma_pow_positive(32, (k - 1) as nat);
                assert(pow(32, k as nat) == 32 * q);
                lemma_div_denominator(n as int, 32, q);
            }
        }
        let len = ds.len();
        let q = pow(32, (len - 1) as nat);
        lemma_pow_positive(32, (len - 1) as nat);
        assert(pow(32, len) == 32 * q);
        lemma_div_denominator(n as int, 32, q);
        if len > 1 {
            let q2 = pow(32, (len - 2) as nat);
            lemma_pow_positive(32, (len - 2) as nat);
            assert(q == 32 * q2);
            lemma_div_denominator(n as int, 32, q2);
            assert(dm.len() == len - 1);
            assert((m as int) / q2 > 0);
            assert((n as int) / q == (m as int) / q2);
        } else {
            assert(len == 1);
            assert(q == 1);
            assert((n as int) / q == n);
        }
    }
}

/// A generated tunnel server domain is `cable.`, then the name, then the top-level domain
/// that `v % 4` picks from the list `.com`, `.org`, `.net`, `.info`, where `v` is the first
/// 8 bytes of the hash read as a little-endian integer.
pub proof fn lemma_generated_domain_tld(id: u16)
    requires
        id >= 256,
    ensures
        ({
            let v = le_value(tunnel_server_hash(id).subrange(0, 8));
            let tlds = seq![
                seq!['.', 'c', 'o', 'm'],
                seq!['.', 'o', 'r', 'g'],
                seq!['.', 'n', 'e', 't'],
                seq!['.', 'i', 'n', 'f', 'o'],
            ];
            let t = tlds[(v % 4) as int];
            let d = tunnel_server_domain(id)->Some_0;
            &&& tunnel_server_domain(id) is Some
            &&& d.subrange(0, 6) == seq!['c', 'a', 'b', 'l', 'e', '.']
            &&& d.len() >= 6 + t.len()
            &&& d.subrange(d.len() - t.len(), d.len() as int) == t
        }),
{
    let v = le_value(tunnel_server_hash(id).subrange(0, 8));
    let d = tunnel_server_domain(id)->Some_0;
    let t = tunnel_server_tld(v % 4);
    let name = base32_digits(v / 4);
    assert(d == seq!['c', 'a', 'b', 'l', 'e', '.'] + name + t);
    assert(d.subrange(0, 6) =~= seq!['c', 'a', 'b', 'l', 'e', '.']);
    assert(d.subrange(d.len() - t.len(), d.len() as int) =~= t);
}

/// Decode a tunnel server ID into a domain name.
///
/// Returns `None` for invalid or unknown tunnel server IDs.
pub fn decode_tunnel_server_id(tunnel_server_id: u16) -> (r: Option<String>)
    ensures
        match r {
            Some(s) => tunnel_server_domain(tunnel_server_id) == Some(s@),
            None => tunnel_server_domain(tunnel_server_id) is None,
        },
{
    if tunnel_server_id < 256 {
        if tunnel_server_id == 0 {
            let d = "cable.ua5v.com";
            proof {
                reveal_strlit("cable.ua5v.com");
            }
            let r = String::from_str(d);
            assert(r@ =~= known_tunnel_server_domain(0).unwrap());
            return Some(r);
        } else if tunnel_server_id == 1 {
            let d = "cable.auth.com";
            proof {
                reveal_strlit("cable.auth.com");
            }
            let r = String::from_str(d);
            assert(r@ =~= known_tunnel_server_domain(1).unwrap());
            return Some(r);
        }
        return None;
    }
    let salt: [u8; 28] = [
        0x63, 0x61, 0x42, 0x4c, 0x45, 0x76, 0x32, 0x20, 0x74, 0x75, 0x6e, 0x6e, 0x65, 0x6c, 0x20,
        0x73, 0x65, 0x72, 0x76, 0x65, 0x72, 0x20, 0x64, 0x6f, 0x6d, 0x61, 0x69, 0x6e,
    ];
    let mut input = to_vec(salt.as_slice());
    input.push((tunnel_server_id % 256) as u8);
    input.push((tunnel_server_id / 256) as u8);
    input.push(0u8);
    assert(input@ =~= tunnel_server_salt() + seq![
        (tunnel_server_id % 256) as u8,
        (tunnel_server_id / 256) as u8,
    ] + seq![0u8]);
    let hash = sha256(input.as_slice());
    let v0 = le_u64(&hash.as_slice()[0..8]);
    assert(v0 & 3 == v0 % 4) by (bit_vector);
    assert(v0 >> 2 == v0 / 4) by (bit_vector);
    let tld_index = v0 & 3;
    let mut v = v0 >> 2;

    let prefix = "cable.";
    let alphabet = "abcdefghijklmnopqrstuvwxyz234567";
    proof {
        reveal_strlit("cable.");
        reveal_strlit("abcdefghijklmnopqrstuvwxyz234567");
    }
    assert(alphabet@ =~= base32_alphabet());
    let mut r = String::from_str(prefix);
    assert(r@ =~= seq!['c', 'a', 'b', 'l', 'e', '.']);
    while v != 0
        invariant
            alphabet@ == base32_alphabet(),
            r@ + base32_digits(v as nat) == seq!['c', 'a', 'b', 'l', 'e', '.'] + base32_digits(
                (v0 / 4) as nat,
            ),
        decreases v,
    {
        assert(v & 31 == v % 32) by (bit_vector);
        assert(v >> 5 == v / 32) by (bit_vector);
        let c = (v & 31) as usize;
        let one = alphabet.substring_char(c, c + 1);
        let ghost old_r = r@;
        r.append(one);
        assert(one@ =~= seq![base32_alphabet()[(v % 32) as int]]);
        v = v >> 5;
        assert(r@ + base32_digits(v as nat) =~= old_r + base32_digits((v * 32 + c) as nat)) by {
            assert(base32_digits((v * 32 + c) as nat) == seq![base32_alphabet()[c as int]]
                + base32_digits(v as nat));
        }
    }
    assert(r@ =~= seq!['c', 'a', 'b', 'l', 'e', '.'] + base32_digits((v0 / 4) as nat));
    let tld = if tld_index == 0 {
        proof {
            reveal_strlit(".com");
        }
        ".com"
    } else if tld_index == 1 {
        proof {
            reveal_strlit(".org");
        }
        ".org"
    } else if tld_index == 2 {
        proof {
            reveal_strlit(".net");
        }
        ".net"
    } else {
        proof {
            reveal_strlit(".info");
        }
        ".info"
    };
    assert(tld@ =~= tunnel_server_tld((v0 % 4) as nat));
    r.append(tld);
    Some(r)
}

/// The upper-case hexadecimal digits.
pub open spec fn hex_digits() -> Seq<char> {
    seq!['0', '1', '2', '3', '4', '5', '6', '7', '8', '9', 'A', 'B', 'C', 'D', 'E', 'F']
}

/// `data` in upper-case hexadecimal, two digits per byte.
pub open spec fn hex_spec(data: Seq<u8>) -> Seq<char> {
    Seq::new(
        2 * data.len(),
        |j: int|
            if j % 2 == 0 {
                hex_digits()[(data[j / 2] / 16) as int]
            } else {
                hex_digits()[(data[j / 2] % 16) as int]
            },
    )
}

/// Encodes `data` in upper-case hexadecimal.
pub fn hex(data: &[u8]) -> (r: String)
    ensures
        r@ == hex_spec(data@),
{
    let digits = "0123456789ABCDEF";
    proof {
        reveal_strlit("0123456789ABCDEF");
        reveal_strlit("");
    }
    assert(digits@ =~= hex_digits());
    let mut r = String::from_str("");
    let mut i: usize = 0;
    while i < data.len()
        invariant
            i <= data@.len(),
            digits@ == hex_digits(),
            r@ =~= hex_spec(data@).subrange(0, 2 * i),
        decreases data@.len() - i,
    {
        let b = data[i];
        let hi = (b / 16) as usize;
        let lo = (b % 16) as usize;
        r.append(digits.substring_char(hi, hi + 1));
        r.append(digits.substring_char(lo, lo + 1));
        i += 1;
        assert(r@ =~= hex_spec(data@).subrange(0, 2 * i));
    }
    assert(hex_spec(data@).subrange(0, 2 * data@.len() as int) =~= hex_spec(data@));
    r
}

/// The QR code secret shared by the initiator with the authenticator.
#[derive(Clone)]
pub struct SharedSecret(pub [u8; 16]);

/// A caBLE tunnel ID.
#[derive(Debug, Clone)]
pub struct TunnelID(pub [u8; 16]);

impl PartialEq for TunnelID {
    fn eq(&self, other: &Self) -> (r: bool) {
        crate::bytes::bytes_eq(self.0.as_slice(), other.0.as_slice())
    }
}

impl vstd::std_specs::cmp::PartialEqSpecImpl for TunnelID {
    open spec fn obeys_eq_spec() -> bool {
        true
    }

    open spec fn eq_spec(&self, other: &Self) -> bool {
        self.0@ == other.0@
    }
}

impl TunnelID {
    /// The tunnel ID's bytes.
    pub fn as_slice(&self) -> (r: &[u8])
        ensures
            r@ == self.0@,
    {
        self.0.as_slice()
    }

    /// The tunnel ID in upper-case hexadecimal.
    pub fn encode_hex(&self) -> (r: String)
        ensures
            r@ == hex_spec(self.0@),
    {
        hex(self.0.as_slice())
    }
}

/// The keys that encrypt and authenticate EID advertisements.
#[derive(Clone)]
pub struct EidKey {
    /// The AES-256 key that encrypts EIDs.
    pub encryption_key: [u8; 32],
    /// The HMAC-SHA-256 key that signs encrypted EIDs.
    pub signing_key: [u8; 32],
}

/// What a value derived from the QR secret is for.
#[derive(Debug, Clone, Copy, PartialEq, Eq, Structural)]
pub enum KeyPurpose {
    /// The EID encryption and signing keys.
    EidKey,
    /// The tunnel ID.
    TunnelId,
    /// The pre-shared key of the Noise handshake.
    Psk,
}

/// The HKDF `info` of a purpose: its number as a 32-bit little-endian integer.
pub open spec fn purpose_info(p: KeyPurpose) -> Seq<u8> {
    match p {
        KeyPurpose::EidKey => seq![1u8, 0u8, 0u8, 0u8],
        KeyPurpose::TunnelId => seq![2u8, 0u8, 0u8, 0u8],
        KeyPurpose::Psk => seq![3u8, 0u8, 0u8, 0u8],
    }
}

/// `len` bytes derived from `secret` with `salt` for purpose `p`.
pub open spec fn derive_spec(p: KeyPurpose, secret: Seq<u8>, salt: Seq<u8>, len: nat) -> Seq<u8> {
    hkdf_spec(salt, secret, purpose_info(p), len)
}

impl KeyPurpose {
    /// Derives `len` bytes from `secret` with `salt` for this purpose, with HKDF-SHA-256.
    ///
    /// Fails with [`Error::Failure`] when more than HKDF can produce is asked for.
    pub fn derive(self, secret: &[u8], salt: &[u8], len: usize) -> (r: Result<Vec<u8>>)
        ensures
            len <= HKDF_MAX_LEN ==> r is Ok && r->Ok_0@ == derive_spec(self, secret@, salt@, len as nat)
                && r->Ok_0@.len() == len,
            len > HKDF_MAX_LEN ==> r == Err::<Vec<u8>, Error>(Error::Failure),
    {
        if len > HKDF_MAX_LEN {
            return Err(Error::Failure);
        }
        Ok(hkdf(salt, secret, purpose_info_bytes(self).as_slice(), len))
    }
}

/// The HKDF `info` of a purpose.
fn purpose_info_bytes(p: KeyPurpose) -> (r: [u8; 4])
    ensures
        r@ == purpose_info(p),
{
    let n: u8 = match p {
        KeyPurpose::EidKey => 1,
        KeyPurpose::TunnelId => 2,
        KeyPurpose::Psk => 3,
    };
    let info: [u8; 4] = [n, 0, 0, 0];
    assert(info@ =~= purpose_info(p));
    info
}

/// The tunnel ID of a QR secret.
pub open spec fn tunnel_id_spec(secret: Seq<u8>) -> Seq<u8> {
    derive_spec(KeyPurpose::TunnelId, secret, Seq::empty(), 16)
}

/// The EID encryption and signing keys of a QR secret: the first and second halves of 64
/// derived bytes.
pub open spec fn eid_key_spec(secret: Seq<u8>) -> (Seq<u8>, Seq<u8>) {
    let k = derive_spec(KeyPurpose::EidKey, secret, Seq::empty(), 64);
    (k.subrange(0, 32), k.subrange(32, 64))
}

impl SharedSecret {
    /// The tunnel ID derived from this secret.
    pub fn to_tunnel_id(&self) -> (r: TunnelID)
        ensures
            r.0@ == tunnel_id_spec(self.0@),
    {
        let empty: [u8; 0] = [];
        assert(empty@ =~= Seq::<u8>::empty());
        let t = hkdf(empty.as_slice(), self.0.as_slice(), purpose_info_bytes(KeyPurpose::TunnelId).as_slice(), 16);
        let mut id = [0u8; 16];
        let mut i: usize = 0;
        while i < 16
            invariant
                i <= 16,
                t@.len() == 16,
                id@.len() == 16,
                forall|j: int| 0 <= j < i ==> id@[j] == t@[j],
            decreases 16 - i,
        {
            id[i] = t[i];
            i += 1;
        }
        assert(id@ =~= t@);
        TunnelID(id)
    }

    /// The EID keys derived from this secret.
    pub fn to_eid_key(&self) -> (r: EidKey)
        ensures
            r.encryption_key@ == eid_key_spec(self.0@).0,
            r.signing_key@ == eid_key_spec(self.0@).1,
    {
        let empty: [u8; 0] = [];
        assert(empty@ =~= Seq::<u8>::empty());
        let k = hkdf(empty.as_slice(), self.0.as_slice(), purpose_info_bytes(KeyPurpose::EidKey).as_slice(), 64);
        EidKey {
            encryption_key: to_array32(&k.as_slice()[0..32]),
            signing_key: to_array32(&k.as_slice()[32..64]),
        }
    }
}

} // verus!
