//! Little-endian integers read from byte sequences.
use vstd::prelude::*;

verus! {

/// `256` raised to the power `n`.
pub open spec fn pow256(n: nat) -> nat
    decreases n,
{
    if n == 0 {
        1
    } else {
        256 * pow256((n - 1) as nat)
    }
}

/// The unsigned value of `s` read as a little-endian integer.
pub open spec fn le_value(s: Seq<u8>) -> nat
    decreases s.len(),
{
    if s.len() == 0 {
        0
    } else {
        s[0] as nat + 256 * le_value(s.drop_first())
    }
}

/// A little-endian value of `n` bytes is below `256^n`.
pub proof fn lemma_le_value_bound(s: Seq<u8>)
    ensures
        le_value(s) < pow256(s.len()),
    decreases s.len(),
{
    if s.len() > 0 {
        lemma_le_value_bound(s.drop_first());
        assert(pow256(s.len()) == 256 * pow256(s.drop_first().len()));
    }
}

/// `256^n` grows with `n`.
pub proof fn lemma_pow256_monotone(a: nat, b: nat)
    requires
        a <= b,
    ensures
        pow256(a) <= pow256(b),
    decreases b,
{
    if a < b {
        lemma_pow256_monotone(a, (b - 1) as nat);
    }
}

/// Reads `width` bytes of `bytes`, from `start` on, as a little-endian integer.
pub fn read_le(bytes: &[u8], start: usize, width: usize) -> (r: u128)
    requires
        width <= 16,
        start + width <= bytes@.len(),
    ensures
        r as nat == le_value(bytes@.subrange(start as int, start + width)),
{
    let n = bytes.len();
    assert(start + width <= n);
    let end = start + width;
    let mut acc: u128 = 0;
    let mut i: usize = end;
    proof {
        reveal_with_fuel(pow256, 17);
        assert(bytes@.subrange(end as int, end as int) =~= Seq::<u8>::empty());
    }
    while i > start
        invariant
            start <= i <= end,
            end == start + width,
            width <= 16,
            end <= bytes@.len(),
            acc as nat == le_value(bytes@.subrange(i as int, end as int)),
            pow256(16) == 0x1_0000_0000_0000_0000_0000_0000_0000_0000,
        decreases i,
    {
        let ghost tail = bytes@.subrange(i as int, end as int);
        let ghost longer = bytes@.subrange(i - 1, end as int);
        proof {
            lemma_le_value_bound(tail);
            lemma_pow256_monotone(tail.len() + 1, 16);
            assert(pow256(tail.len() + 1) == 256 * pow256(tail.len()));
            assert(longer.drop_first() =~= tail);
        }
        acc = acc * 256 + bytes[i - 1] as u128;
        i = i - 1;
    }
    acc
}

/// A copy of `bytes[start..end]`.
pub fn copy_range(bytes: &[u8], start: usize, end: usize) -> (r: Vec<u8>)
    requires
        start <= end <= bytes@.len(),
    ensures
        r@ == bytes@.subrange(start as int, end as int),
{
    let mut out: Vec<u8> = Vec::new();
    let mut i: usize = start;
    while i < end
        invariant
            start <= i <= end,
            end <= bytes@.len(),
            out@ == bytes@.subrange(start as int, i as int),
        decreases end - i,
    {
        out.push(bytes[i]);
        i = i + 1;
        assert(out@ =~= bytes@.subrange(start as int, i as int));
    }
    out
}

} // verus!
