//! Fixed-width little-endian encoding of unsigned integers, and byte-string
//! comparison.
use vstd::prelude::*;

verus! {

/// `256` raised to the power `n`.
pub open spec fn pow256(n: nat) -> nat
    decreases n,
{
    if n == 0 {
        1
    } else {
        256 * pow256((n - 1) as nat)
    }
}

/// The `n` low-order bytes of `x`, least significant first.
pub open spec fn le_bytes(x: nat, n: nat) -> Seq<u8> {
    Seq::new(n, |k: int| ((x / pow256(k as nat)) % 256) as u8)
}

/// The number whose little-endian byte string is `s`.
pub open spec fn le_value(s: Seq<u8>) -> nat
    decreases s.len(),
{
    if s.len() == 0 {
        0
    } else {
        s[0] as nat + 256 * le_value(s.drop_first())
    }
}

pub proof fn lemma_pow256_positive(n: nat)
    ensures
        pow256(n) >= 1,
    decreases n,
{
    if n > 0 {
        lemma_pow256_positive((n - 1) as nat);
    }
}

pub proof fn lemma_le_value_bound(s: Seq<u8>)
    ensures
        le_value(s) < pow256(s.len()),
    decreases s.len(),
{
    if s.len() > 0 {
        lemma_le_value_bound(s.drop_first());
        let r = le_value(s.drop_first());
        let p = pow256(s.drop_first().len());
        assert(s[0] as nat + 256 * r < 256 * p) by (nonlinear_arith)
            requires
                r < p,
                s[0] < 256,
        ;
    }
}

/// Appends the `n` low-order bytes of `x` to `data`, least significant first.
pub fn push_le(data: &mut Vec<u8>, x: u128, n: usize)
    requires
        n <= 16,
    ensures
        final(data)@ == old(data)@ + le_bytes(x as nat, n as nat),
{
    let ghost start = old(data)@;
    let mut v: u128 = x;
    let mut i: usize = 0;
    assert(pow256(0) == 1);
    assert(data@ =~= start + le_bytes(x as nat, 0));
    while i < n
        invariant
            i <= n,
            v as nat == x as nat / pow256(i as nat),
            data@ == start + le_bytes(x as nat, i as nat),
        decreases n - i,
    {
        proof {
            lemma_pow256_positive(i as nat);
            vstd::arithmetic::div_mod::lemma_div_denominator(x as int, pow256(i as nat) as int, 256);
            assert(pow256((i + 1) as nat) == pow256(i as nat) * 256);
        }
        data.push((v % 256) as u8);
        v = v / 256;
        i = i + 1;
        assert(data@ =~= start + le_bytes(x as nat, i as nat));
    }
}

/// Reads the little-endian number held in `b[start..start + 16]`.
pub fn read_le_u128(b: &[u8], start: usize) -> (r: u128)
    requires
        start + 16 <= b@.len(),
    ensures
        r as nat == le_value(b@.subrange(start as int, start + 16)),
{
    let ghost s = b@.subrange(start as int, start + 16);
    let mut v: u128 = 0;
    let len = b.len();
    let mut i: usize = 16;
    while i > 0
        invariant
            i <= 16,
            len == b@.len(),
            start + 16 <= b@.len(),
            s == b@.subrange(start as int, start + 16),
            v as nat == le_value(s.subrange(i as int, 16)),
        decreases i,
    {
        let ghost tail = s.subrange(i as int, 16);
        let ghost next = s.subrange(i - 1, 16);
        proof {
            assert(next.drop_first() =~= tail);
            lemma_le_value_bound(tail);
            assert(pow256(tail.len()) <= pow256(15)) by {
                lemma_pow256_monotone(tail.len(), 15);
            }
            lemma_pow256_16();
        }
        let byte = b[start + (i - 1)];
        v = v * 256 + byte as u128;
        i = i - 1;
    }
    assert(s.subrange(0, 16) =~= s);
    v
}

pub proof fn lemma_pow256_16()
    ensures
        pow256(16) == 0x1_0000_0000_0000_0000_0000_0000_0000_0000nat,
{
    reveal_with_fuel(pow256, 17);
}

pub proof fn lemma_pow256_monotone(a: nat, b: nat)
    requires
        a <= b,
    ensures
        pow256(a) <= pow256(b),
    decreases b,
{
    if a < b {
        lemma_pow256_monotone(a, (b - 1) as nat);
        lemma_pow256_positive((b - 1) as nat);
    }
}

/// Whether two byte strings are identical.
pub fn bytes_eq(a: &[u8], b: &[u8]) -> (r: bool)
    ensures
        r == (a@ == b@),
{
    if a.len() != b.len() {
        return false;
    }
    let mut i: usize = 0;
    while i < a.len()
        invariant
            a@.len() == b@.len(),
            i <= a@.len(),
            forall|k: int| 0 <= k < i ==> a@[k] == b@[k],
        decreases a@.len() - i,
    {
        if a[i] != b[i] {
            return false;
        }
        i = i + 1;
    }
    assert(a@ =~= b@);
    true
}

} // verus!
