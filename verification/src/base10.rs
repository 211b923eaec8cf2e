//! caBLE base10 ("digit") encoding.
//!
//! Bytes are taken in chunks of 7; each chunk is read as a little-endian integer and written
//! as 17 decimal digits. A final partial chunk of 1 to 6 bytes is written with just enough
//! digits to hold its largest value.

use crate::bytes::append;
use crate::error::{Error, Result};
use crate::le::{
    le_bytes, le_bytes_of, le_u64, le_value, lemma_le_bytes_of_value, lemma_le_value_bound,
    lemma_pow256_values, pow256,
};
use vstd::arithmetic::div_mod::{lemma_div_denominator, lemma_mod_breakdown, lemma_small_mod};
use vstd::prelude::*;

verus! {

/// Chunk size for input/decoded data.
pub const CHUNK_SIZE: usize = 7;

/// Chunk size for output/encoded data.
pub const CHUNK_DIGITS: usize = 17;

/// The number of digits that encode a final partial chunk of `bytes` bytes (`bytes < 7`).
pub open spec fn partial_digits(bytes: nat) -> nat {
    if bytes == 6 { 15 }
    else if bytes == 5 { 13 }
    else if bytes == 4 { 10 }
    else if bytes == 3 { 8 }
    else if bytes == 2 { 5 }
    else if bytes == 1 { 3 }
    else { 0 }
}

/// The number of bytes that a final partial chunk of `digits` digits decodes to, where
/// `digits` is one of the valid partial lengths.
pub open spec fn partial_bytes(digits: nat) -> Option<nat> {
    if digits == 15 { Some(6) }
    else if digits == 13 { Some(5) }
    else if digits == 10 { Some(4) }
    else if digits == 8 { Some(3) }
    else if digits == 5 { Some(2) }
    else if digits == 3 { Some(1) }
    else if digits == 0 { Some(0) }
    else { None }
}

/// The encoded size of `len` bytes of data.
pub open spec fn spec_encoded_size(len: nat) -> nat {
    partial_digits(len % 7) + (len / 7) * 17
}

/// The decoded size of `len` digits, or `None` when no data encodes to that many digits.
pub open spec fn spec_decoded_size(len: nat) -> Option<nat> {
    match partial_bytes(len % 17) {
        Some(r) => Some(r + (len / 17) * 7),
        None => None,
    }
}

/// The size of the base10 encoding of `len` bytes, in digits.
pub fn encoded_size(len: usize) -> (r: usize)
    requires
        spec_encoded_size(len as nat) <= usize::MAX,
    ensures
        r == spec_encoded_size(len as nat),
{
    let partial: usize = match len % CHUNK_SIZE {
        6 => 15,
        5 => 13,
        4 => 10,
        3 => 8,
        2 => 5,
        1 => 3,
        _ => 0,
    };
    partial + (len / CHUNK_SIZE * CHUNK_DIGITS)
}

/// The decoded size of some base10-encoded data, in bytes.
///
/// Returns `None` on invalid lengths.
pub fn decoded_size(len: usize) -> (r: Option<usize>)
    ensures
        match r {
            Some(n) => spec_decoded_size(len as nat) == Some(n as nat),
            None => spec_decoded_size(len as nat) is None,
        },
{
    let partial: usize = match len % CHUNK_DIGITS {
        15 => 6,
        13 => 5,
        10 => 4,
        8 => 3,
        5 => 2,
        3 => 1,
        0 => 0,
        _ => return None,
    };
    assert(len / 17 * 7 <= len);
    Some(partial + (len / CHUNK_DIGITS * CHUNK_SIZE))
}

/// `10^n`.
pub open spec fn pow10(n: nat) -> nat
    decreases n,
{
    if n == 0 {
        1
    } else {
        10 * pow10((n - 1) as nat)
    }
}

/// `v` as `n` ASCII decimal digits, most significant first, zero-padded (the low `n` digits
/// when `v` is larger).
pub open spec fn decimal_digits(v: nat, n: nat) -> Seq<u8> {
    Seq::new(n, |j: int| (48 + (v / pow10((n - 1 - j) as nat)) % 10) as u8)
}

/// `true` when every byte of `d` is an ASCII decimal digit.
pub open spec fn all_digits(d: Seq<u8>) -> bool {
    forall|j: int| 0 <= j < d.len() ==> 48 <= #[trigger] d[j] <= 57
}

/// The value of the ASCII decimal digits `d`, most significant first.
pub open spec fn digits_value(d: Seq<u8>) -> nat
    decreases d.len(),
{
    if d.len() == 0 {
        0
    } else {
        digits_value(d.drop_last()) * 10 + (d.last() - 48) as nat
    }
}

/// The base10 encoding of `b`: each full chunk of 7 bytes as 17 digits of its little-endian
/// value, then a final partial chunk as [`partial_digits`] digits.
pub open spec fn encode_spec(b: Seq<u8>) -> Seq<u8>
    decreases b.len(),
{
    if b.len() >= 7 {
        decimal_digits(le_value(b.subrange(0, 7)), 17) + encode_spec(b.subrange(7, b.len() as int))
    } else {
        decimal_digits(le_value(b), partial_digits(b.len()))
    }
}

/// The base10 decoding of `d`, or `None` when `d` is not a valid encoding: its length must
/// be a valid encoded length, every byte a digit, and each chunk's value must fit in the
/// chunk's bytes.
pub open spec fn decode_spec(d: Seq<u8>) -> Option<Seq<u8>>
    decreases d.len(),
{
    if d.len() >= 17 {
        let c = d.subrange(0, 17);
        if all_digits(c) && digits_value(c) < pow256(7) {
            match decode_spec(d.subrange(17, d.len() as int)) {
                Some(rest) => Some(le_bytes(digits_value(c), 7) + rest),
                None => None,
            }
        } else {
            None
        }
    } else {
        match partial_bytes(d.len()) {
            Some(k) => if all_digits(d) && digits_value(d) < pow256(k) {
                Some(le_bytes(digits_value(d), k))
            } else {
                None
            },
            None => None,
        }
    }
}

/// `10^n` for the small `n` in use, against `256^k`: every `k`-byte chunk fits in its digits.
pub proof fn lemma_chunks_fit()
    ensures
        pow256(7) <= pow10(17),
        pow256(6) <= pow10(15),
        pow256(5) <= pow10(13),
        pow256(4) <= pow10(10),
        pow256(3) <= pow10(8),
        pow256(2) <= pow10(5),
        pow256(1) <= pow10(3),
        pow256(0) <= pow10(0),
        pow10(17) == 100_000_000_000_000_000,
{
    lemma_pow256_values();
    reveal_with_fuel(pow10, 18);
}

/// The digits of `v` split as the digits of `v / 10` followed by the last digit.
pub proof fn lemma_decimal_digits_step(v: nat, n: nat)
    requires
        n > 0,
    ensures
        decimal_digits(v, n) == decimal_digits(v / 10, (n - 1) as nat).push((48 + v % 10) as u8),
{
    let a = decimal_digits(v, n);
    let b = decimal_digits(v / 10, (n - 1) as nat).push((48 + v % 10) as u8);
    assert forall|j: int| 0 <= j < n implies a[j] == b[j] by {
        if j < n - 1 {
            let k = (n - 2 - j) as nat;
            assert(pow10((n - 1 - j) as nat) == 10 * pow10(k));
            lemma_pow10_positive(k);
            lemma_div_denominator(v as int, 10, pow10(k) as int);
            assert(a[j] == (48 + (v / pow10((n - 1 - j) as nat)) % 10) as u8);
            assert(b[j] == decimal_digits(v / 10, (n - 1) as nat)[j]);
            assert(decimal_digits(v / 10, (n - 1) as nat)[j] == (48 + ((v / 10) / pow10(k)) % 10) as u8);
        } else {
            assert(pow10(0) == 1);
            assert(a[j] == (48 + (v / pow10(0)) % 10) as u8);
        }
    }
    assert(a =~= b);
}

/// `10^n` is positive.
pub proof fn lemma_pow10_positive(n: nat)
    ensures
        pow10(n) > 0,
    decreases n,
{
    if n > 0 {
        lemma_pow10_positive((n - 1) as nat);
    }
}

/// Decimal digits are digits, and read back as the value modulo `10^n`.
pub proof fn lemma_decimal_digits_value(v: nat, n: nat)
    ensures
        all_digits(decimal_digits(v, n)),
        digits_value(decimal_digits(v, n)) == v % pow10(n),
        decimal_digits(v, n).len() == n,
    decreases n,
{
    if n > 0 {
        lemma_decimal_digits_step(v, n);
        lemma_decimal_digits_value(v / 10, (n - 1) as nat);
        let d = decimal_digits(v, n);
        assert(d.drop_last() =~= decimal_digits(v / 10, (n - 1) as nat));
        lemma_pow10_positive((n - 1) as nat);
        lemma_mod_breakdown(v as int, 10, pow10((n - 1) as nat) as int);
    }
}

/// Writes `v` as `n` decimal digits at the end of `out`.
fn push_decimal(out: &mut Vec<u8>, v: u64, n: usize)
    requires
        n <= 17,
    ensures
        final(out)@ == old(out)@ + decimal_digits(v as nat, n as nat),
{
    let mut buf = [0u8; 17];
    let mut x: u64 = v;
    let mut k: usize = 0;
    assert(pow10(0) == 1);
    assert(v as nat / 1 == v as nat);
    while k < n
        invariant
            k <= n <= 17,
            buf@.len() == 17,
            x as nat == v as nat / pow10(k as nat),
            forall|j: int| n - k <= j < n ==> #[trigger] buf@[j] == decimal_digits(v as nat, n as nat)[j],
        decreases n - k,
    {
        buf[n - 1 - k] = 48 + (x % 10) as u8;
        proof {
            lemma_pow10_positive(k as nat);
            lemma_div_denominator(v as int, pow10(k as nat) as int, 10);
            assert(pow10((k + 1) as nat) == 10 * pow10(k as nat));
        }
        x = x / 10;
        k += 1;
    }
    let mut i: usize = 0;
    let ghost start = out@;
    while i < n
        invariant
            i <= n <= 17,
            buf@.len() == 17,
            forall|j: int| 0 <= j < n ==> #[trigger] buf@[j] == decimal_digits(v as nat, n as nat)[j],
            out@ == start + decimal_digits(v as nat, n as nat).subrange(0, i as int),
        decreases n - i,
    {
        out.push(buf[i]);
        i += 1;
        assert(out@ =~= start + decimal_digits(v as nat, n as nat).subrange(0, i as int));
    }
    assert(decimal_digits(v as nat, n as nat).subrange(0, n as int) =~= decimal_digits(v as nat, n as nat));
}

/// The number of digits of a final partial chunk of `bytes` bytes (`bytes < 7`).
fn partial_digits_exec(bytes: usize) -> (r: usize)
    requires
        bytes < 7,
    ensures
        r == partial_digits(bytes as nat),
{
    match bytes {
        6 => 15,
        5 => 13,
        4 => 10,
        3 => 8,
        2 => 5,
        1 => 3,
        _ => 0,
    }
}

/// Encodes `data` in caBLE base10 digits.
pub fn encode(data: &[u8]) -> (r: Vec<u8>)
    ensures
        r@ == encode_spec(data@),
{
    let mut out: Vec<u8> = Vec::new();
    let mut i: usize = 0;
    assert(data@.subrange(0, data@.len() as int) =~= data@);
    while data.len() - i >= CHUNK_SIZE
        invariant
            i <= data@.len(),
            out@ + encode_spec(data@.subrange(i as int, data@.len() as int)) == encode_spec(data@),
        decreases data@.len() - i,
    {
        let ghost rest = data@.subrange(i as int, data@.len() as int);
        let v = le_u64(&data[i..i + CHUNK_SIZE]);
        let ghost old_out = out@;
        push_decimal(&mut out, v, CHUNK_DIGITS);
        proof {
            assert(rest.subrange(0, 7) =~= data@.subrange(i as int, i + 7));
            assert(rest.subrange(7, rest.len() as int) =~= data@.subrange(i + 7, data@.len() as int));
            assert(out@ + encode_spec(data@.subrange(i + 7, data@.len() as int)) =~= old_out + encode_spec(rest));
        }
        i += CHUNK_SIZE;
    }
    let rem = data.len() - i;
    let v = le_u64(&data[i..data.len()]);
    push_decimal(&mut out, v, partial_digits_exec(rem));
    assert(out@ =~= encode_spec(data@));
    out
}

/// Parses up to 17 ASCII decimal digits, or `None` when a byte is not a digit.
fn parse_digits(d: &[u8]) -> (r: Option<u64>)
    requires
        d@.len() <= 17,
    ensures
        match r {
            Some(v) => all_digits(d@) && v == digits_value(d@),
            None => !all_digits(d@),
        },
{
    let mut v: u64 = 0;
    let mut i: usize = 0;
    proof {
        lemma_chunks_fit();
    }
    while i < d.len()
        invariant
            i <= d@.len() <= 17,
            all_digits(d@.subrange(0, i as int)),
            v == digits_value(d@.subrange(0, i as int)),
            v < pow10(i as nat),
            pow10(17) == 100_000_000_000_000_000,
        decreases d@.len() - i,
    {
        let c = d[i];
        if c < 48 || c > 57 {
            assert(!all_digits(d@)) by {
                assert(d@[i as int] == c);
            }
            return None;
        }
        proof {
            lemma_pow10_monotonic(i as nat, 16);
            assert(d@.subrange(0, i + 1).drop_last() =~= d@.subrange(0, i as int));
            assert(pow10((i + 1) as nat) == 10 * pow10(i as nat));
        }
        v = v * 10 + (c - 48) as u64;
        i += 1;
        assert(all_digits(d@.subrange(0, i as int))) by {
            assert forall|j: int| 0 <= j < i implies 48 <= #[trigger] d@.subrange(0, i as int)[j] <= 57 by {
                if j < i - 1 {
                    assert(d@.subrange(0, i as int)[j] == d@.subrange(0, i - 1)[j]);
                }
            }
        }
    }
    assert(d@.subrange(0, d@.len() as int) =~= d@);
    Some(v)
}

/// `10^n` grows with `n`.
pub proof fn lemma_pow10_monotonic(a: nat, b: nat)
    requires
        a <= b,
    ensures
        pow10(a) <= pow10(b),
    decreases b,
{
    if a < b {
        lemma_pow10_monotonic(a, (b - 1) as nat);
    }
}

/// `256^k` for a partial chunk of `k < 7` bytes, as an exclusive bound on its value.
fn chunk_limit(k: usize) -> (r: u64)
    requires
        k <= 7,
    ensures
        r == pow256(k as nat),
{
    proof {
        lemma_pow256_values();
    }
    match k {
        0 => 1,
        1 => 0x100,
        2 => 0x1_0000,
        3 => 0x100_0000,
        4 => 0x1_0000_0000,
        5 => 0x100_0000_0000,
        6 => 0x1_0000_0000_0000,
        _ => 0x100_0000_0000_0000,
    }
}

/// Decodes caBLE base10 digits.
///
/// Fails with [`Error::InvalidArgument`] when `digits` is not a valid encoding.
pub fn decode(digits: &[u8]) -> (r: Result<Vec<u8>>)
    ensures
        match decode_spec(digits@) {
            Some(b) => r is Ok && r->Ok_0@ == b,
            None => r == Err::<Vec<u8>, Error>(Error::InvalidArgument),
        },
{
    let mut out: Vec<u8> = Vec::new();
    let mut i: usize = 0;
    assert(digits@.subrange(0, digits@.len() as int) =~= digits@);
    assert(out@ =~= Seq::<u8>::empty());
    while digits.len() - i >= CHUNK_DIGITS
        invariant
            i <= digits@.len(),
            decode_spec(digits@) == match decode_spec(digits@.subrange(i as int, digits@.len() as int)) {
                Some(rest) => Some(out@ + rest),
                None => None::<Seq<u8>>,
            },
        decreases digits@.len() - i,
    {
        let ghost rest = digits@.subrange(i as int, digits@.len() as int);
        assert(rest.subrange(0, 17) =~= digits@.subrange(i as int, i + 17));
        assert(rest.subrange(17, rest.len() as int) =~= digits@.subrange(i + 17, digits@.len() as int));
        let v = match parse_digits(&digits[i..i + CHUNK_DIGITS]) {
            Some(v) => v,
            None => return Err(Error::InvalidArgument),
        };
        if v >= chunk_limit(7) {
            return Err(Error::InvalidArgument);
        }
        let bytes = le_bytes_of(v, CHUNK_SIZE);
        let ghost old_out = out@;
        append(&mut out, bytes.as_slice());
        i += CHUNK_DIGITS;
        proof {
            match decode_spec(digits@.subrange(i as int, digits@.len() as int)) {
                Some(r2) => {
                    assert(out@ + r2 =~= old_out + (le_bytes(v as nat, 7) + r2));
                },
                None => {},
            }
        }
    }
    let rem = digits.len() - i;
    let ghost rest = digits@.subrange(i as int, digits@.len() as int);
    let k: usize = match rem {
        15 => 6,
        13 => 5,
        10 => 4,
        8 => 3,
        5 => 2,
        3 => 1,
        0 => 0,
        _ => return Err(Error::InvalidArgument),
    };
    let v = match parse_digits(&digits[i..digits.len()]) {
        Some(v) => v,
        None => return Err(Error::InvalidArgument),
    };
    if v >= chunk_limit(k) {
        return Err(Error::InvalidArgument);
    }
    let bytes = le_bytes_of(v, k);
    append(&mut out, bytes.as_slice());
    Ok(out)
}

/// Decoding an encoding gives the data back.
pub proof fn lemma_decode_encode(b: Seq<u8>)
    ensures
        decode_spec(encode_spec(b)) == Some(b),
    decreases b.len(),
{
    lemma_chunks_fit();
    if b.len() >= 7 {
        let c = b.subrange(0, 7);
        let rest = b.subrange(7, b.len() as int);
        let v = le_value(c);
        lemma_le_value_bound(c);
        lemma_decimal_digits_value(v, 17);
        lemma_decode_encode(rest);
        let e = encode_spec(b);
        let dd = decimal_digits(v, 17);
        assert(e == dd + encode_spec(rest));
        assert(e.subrange(0, 17) =~= dd);
        assert(e.subrange(17, e.len() as int) =~= encode_spec(rest));
        lemma_small_mod(v, pow10(17));
        lemma_le_bytes_of_value(c);
        assert(le_bytes(v, 7) + rest =~= b);
    } else {
        let k = b.len();
        let v = le_value(b);
        lemma_le_value_bound(b);
        lemma_decimal_digits_value(v, partial_digits(k));
        assert(v < pow10(partial_digits(k)));
        lemma_small_mod(v, pow10(partial_digits(k)));
        lemma_le_bytes_of_value(b);
        assert(partial_bytes(partial_digits(k)) == Some(k));
    }
}

/// The encoding is made of ASCII digits.
pub proof fn lemma_encode_all_digits(b: Seq<u8>)
    ensures
        all_digits(encode_spec(b)),
    decreases b.len(),
{
    if b.len() >= 7 {
        lemma_decimal_digits_value(le_value(b.subrange(0, 7)), 17);
        lemma_encode_all_digits(b.subrange(7, b.len() as int));
        let x = decimal_digits(le_value(b.subrange(0, 7)), 17);
        let y = encode_spec(b.subrange(7, b.len() as int));
        assert forall|j: int| 0 <= j < (x + y).len() implies 48 <= #[trigger] (x + y)[j] <= 57 by {
            if j < x.len() {
                assert((x + y)[j] == x[j]);
            } else {
                assert((x + y)[j] == y[j - x.len()]);
            }
        }
    } else {
        lemma_decimal_digits_value(le_value(b), partial_digits(b.len()));
    }
}

/// Non-empty data has a non-empty encoding.
pub proof fn lemma_encode_nonempty(b: Seq<u8>)
    requires
        b.len() > 0,
    ensures
        encode_spec(b).len() > 0,
{
    if b.len() >= 7 {
        lemma_decimal_digits_value(le_value(b.subrange(0, 7)), 17);
    } else {
        lemma_decimal_digits_value(le_value(b), partial_digits(b.len()));
    }
}

/// The sizes agree: `len` bytes encode to a number of digits that decodes to `len` bytes,
/// and a number of digits that decodes to some size is the encoded size of that size.
pub proof fn lemma_size_round_trip(len: nat, digits: nat)
    ensures
        spec_decoded_size(spec_encoded_size(len)) == Some(len),
        spec_decoded_size(digits) matches Some(n) ==> spec_encoded_size(n) == digits,
{
    let q = len / 7;
    let r = len % 7;
    assert(len == q * 7 + r);
    let e = partial_digits(r) + q * 17;
    assert(partial_digits(r) < 17);
    assert(e % 17 == partial_digits(r) && e / 17 == q) by {
        vstd::arithmetic::div_mod::lemma_fundamental_div_mod_converse(
            e as int,
            17,
            q as int,
            partial_digits(r) as int,
        );
    }
    let q2 = digits / 17;
    let r2 = digits % 17;
    if let Some(b) = partial_bytes(r2) {
        let n = b + q2 * 7;
        assert(b < 7);
        assert(n % 7 == b && n / 7 == q2) by {
            vstd::arithmetic::div_mod::lemma_fundamental_div_mod_converse(n as int, 7, q2 as int, b as int);
        }
        assert(digits == q2 * 17 + r2);
    }
}

} // verus!
