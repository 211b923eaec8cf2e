//! Little-endian integers over byte sequences.

use vstd::prelude::*;

verus! {

/// `256^n`.
pub open spec fn pow256(n: nat) -> nat
    decreases n,
{
    if n == 0 {
        1
    } else {
        256 * pow256((n - 1) as nat)
    }
}

/// The value of `s` read as a little-endian unsigned integer.
pub open spec fn le_value(s: Seq<u8>) -> nat
    decreases s.len(),
{
    if s.len() == 0 {
        0
    } else {
        s[0] as nat + 256 * le_value(s.drop_first())
    }
}

/// The `n` little-endian bytes of `v` (the low `n` bytes when `v` is larger).
pub open spec fn le_bytes(v: nat, n: nat) -> Seq<u8>
    decreases n,
{
    if n == 0 {
        Seq::empty()
    } else {
        seq![(v % 256) as u8] + le_bytes(v / 256, (n - 1) as nat)
    }
}

/// `256^n` for the small `n` in use.
pub proof fn lemma_pow256_values()
    ensures
        pow256(0) == 1,
        pow256(1) == 0x100,
        pow256(2) == 0x1_0000,
        pow256(3) == 0x100_0000,
        pow256(4) == 0x1_0000_0000,
        pow256(5) == 0x100_0000_0000,
        pow256(6) == 0x1_0000_0000_0000,
        pow256(7) == 0x100_0000_0000_0000,
        pow256(8) == 0x1_0000_0000_0000_0000,
{
    reveal_with_fuel(pow256, 9);
}

/// A little-endian value is below `256^len`.
pub proof fn lemma_le_value_bound(s: Seq<u8>)
    ensures
        le_value(s) < pow256(s.len()),
    decreases s.len(),
{
    if s.len() > 0 {
        lemma_le_value_bound(s.drop_first());
    }
}

/// Reading back the little-endian bytes of a value below `256^n` gives the value.
pub proof fn lemma_le_value_of_bytes(v: nat, n: nat)
    requires
        v < pow256(n),
    ensures
        le_value(le_bytes(v, n)) == v,
        le_bytes(v, n).len() == n,
    decreases n,
{
    if n > 0 {
        assert(v / 256 < pow256((n - 1) as nat)) by (nonlinear_arith)
            requires
                v < 256 * pow256((n - 1) as nat),
        ;
        lemma_le_value_of_bytes(v / 256, (n - 1) as nat);
        let b = le_bytes(v, n);
        assert(b.drop_first() =~= le_bytes(v / 256, (n - 1) as nat));
    }
}

/// Writing the little-endian bytes of the value of `s` gives `s`.
pub proof fn lemma_le_bytes_of_value(s: Seq<u8>)
    ensures
        le_bytes(le_value(s), s.len()) == s,
    decreases s.len(),
{
    if s.len() > 0 {
        lemma_le_bytes_of_value(s.drop_first());
        let v = le_value(s);
        assert(v % 256 == s[0] as nat);
        assert(v / 256 == le_value(s.drop_first()));
        assert(le_bytes(v, s.len()) =~= s);
    }
}

/// Reads up to 8 bytes as a little-endian `u64`.
pub fn le_u64(s: &[u8]) -> (r: u64)
    requires
        s@.len() <= 8,
    ensures
        r == le_value(s@),
{
    let mut v: u64 = 0;
    let mut i: usize = s.len();
    proof {
        lemma_pow256_values();
    }
    while i > 0
        invariant
            i <= s@.len() <= 8,
            v == le_value(s@.subrange(i as int, s@.len() as int)),
            v < pow256((s@.len() - i) as nat),
            pow256(7) == 0x100_0000_0000_0000,
        decreases i,
    {
        proof {
            lemma_le_value_bound(s@.subrange(i as int, s@.len() as int));
            assert(s@.subrange(i - 1, s@.len() as int).drop_first() =~= s@.subrange(
                i as int,
                s@.len() as int,
            ));
            lemma_pow256_monotonic((s@.len() - i) as nat, 7);
        }
        i -= 1;
        v = v * 256 + s[i] as u64;
    }
    assert(s@.subrange(0, s@.len() as int) =~= s@);
    v
}

/// `256^n` grows with `n`.
pub proof fn lemma_pow256_monotonic(a: nat, b: nat)
    requires
        a <= b,
    ensures
        pow256(a) <= pow256(b),
    decreases b,
{
    if a < b {
        lemma_pow256_monotonic(a, (b - 1) as nat);
    }
}

/// Writes the low `n` bytes of `v` in little-endian order.
pub fn le_bytes_of(v: u64, n: usize) -> (r: Vec<u8>)
    requires
        n <= 8,
    ensures
        r@ == le_bytes(v as nat, n as nat),
{
    let mut r: Vec<u8> = Vec::new();
    let mut x: u64 = v;
    let mut i: usize = 0;
    while i < n
        invariant
            i <= n,
            r@ + le_bytes(x as nat, (n - i) as nat) == le_bytes(v as nat, n as nat),
        decreases n - i,
    {
        let ghost old_r = r@;
        let ghost old_x = x;
        r.push((x % 256) as u8);
        x = x / 256;
        i += 1;
        assert(le_bytes(old_x as nat, (n - i + 1) as nat) == seq![(old_x % 256) as u8] + le_bytes(
            x as nat,
            (n - i) as nat,
        ));
        assert(r@ + le_bytes(x as nat, (n - i) as nat) =~= old_r + le_bytes(old_x as nat, (n - i + 1) as nat));
    }
    assert(r@ =~= r@ + le_bytes(x as nat, 0));
    r
}

} // verus!
