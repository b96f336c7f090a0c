//! Little-endian byte decoding and byte-sequence comparison.
//!
//! All multi-byte fields of the instruction encoding are little-endian; the
//! spec functions here give them their numeric meaning.
use vstd::prelude::*;

verus! {

/// The unsigned value of a little-endian byte sequence.
pub open spec fn le_value(s: Seq<u8>) -> nat
    decreases s.len(),
{
    if s.len() == 0 {
        0
    } else {
        s[0] as nat + 256 * le_value(s.subrange(1, s.len() as int))
    }
}

/// 256 raised to `n`: the number of distinct values of `n` bytes.
pub open spec fn pow256(n: nat) -> nat
    decreases n,
{
    if n == 0 {
        1
    } else {
        256 * pow256((n - 1) as nat)
    }
}

/// The signed, two's-complement value of an 8-byte little-endian sequence.
pub open spec fn le_i64_value(s: Seq<u8>) -> int {
    if le_value(s) < 0x8000_0000_0000_0000 {
        le_value(s) as int
    } else {
        le_value(s) as int - 0x1_0000_0000_0000_0000
    }
}

pub proof fn lemma_le_value_bound(s: Seq<u8>)
    ensures
        le_value(s) < pow256(s.len()),
    decreases s.len(),
{
    if s.len() != 0 {
        lemma_le_value_bound(s.subrange(1, s.len() as int));
    }
}

pub proof fn lemma_pow256_increases(m: nat, n: nat)
    requires
        m <= n,
    ensures
        pow256(m) <= pow256(n),
    decreases n,
{
    if m < n {
        lemma_pow256_increases(m, (n - 1) as nat);
    }
}

pub proof fn lemma_pow256_8()
    ensures
        pow256(8) == 0x1_0000_0000_0000_0000,
{
    assert(pow256(0) == 1);
    assert(pow256(1) == 256);
    assert(pow256(2) == 0x1_0000);
    assert(pow256(3) == 0x100_0000);
    assert(pow256(4) == 0x1_0000_0000);
    assert(pow256(5) == 0x100_0000_0000);
    assert(pow256(6) == 0x1_0000_0000_0000);
    assert(pow256(7) == 0x100_0000_0000_0000);
}

/// Decodes two little-endian bytes as an unsigned 16-bit integer.
pub fn u16_from_le(b0: u8, b1: u8) -> (r: u16)
    ensures
        r as nat == le_value(seq![b0, b1]),
{
    let r: u16 = b0 as u16 + 256 * (b1 as u16);
    proof {
        assert(seq![b0, b1].subrange(1, 2) =~= seq![b1]);
        assert(seq![b1].subrange(1, 1) =~= Seq::<u8>::empty());
        assert(le_value(Seq::<u8>::empty()) == 0);
        assert(le_value(seq![b1]) == b1 as nat);
        assert(le_value(seq![b0, b1]) == b0 as nat + 256 * (b1 as nat));
    }
    r
}

/// Decodes eight little-endian bytes as an unsigned 64-bit integer.
pub fn u64_from_le(b: &[u8]) -> (r: u64)
    requires
        b@.len() == 8,
    ensures
        r as nat == le_value(b@),
{
    let mut acc: u64 = 0;
    let mut i: usize = 8;
    proof {
        assert(b@.subrange(8, 8) =~= Seq::<u8>::empty());
    }
    while i > 0
        invariant
            i <= 8,
            b@.len() == 8,
            acc as nat == le_value(b@.subrange(i as int, 8)),
        decreases i,
    {
        proof {
            lemma_le_value_bound(b@.subrange(i as int, 8));
            lemma_pow256_increases((9 - i) as nat, 8);
            lemma_pow256_8();
            assert(b@.subrange(i - 1, 8).subrange(1, 9 - i) =~= b@.subrange(i as int, 8));
        }
        i = i - 1;
        acc = acc * 256 + (b[i] as u64);
    }
    proof {
        assert(b@.subrange(0, 8) =~= b@);
    }
    acc
}

/// Decodes eight little-endian bytes as a signed 64-bit integer.
pub fn i64_from_le(b: &[u8]) -> (r: i64)
    requires
        b@.len() == 8,
    ensures
        r as int == le_i64_value(b@),
{
    let u = u64_from_le(b);
    proof {
        lemma_le_value_bound(b@);
        lemma_pow256_8();
    }
    if u < 0x8000_0000_0000_0000 {
        u as i64
    } else {
        let d: u64 = u64::MAX - u;
        -(d as i64) - 1
    }
}

/// Compares two byte slices for equality of contents.
pub fn bytes_equal(a: &[u8], b: &[u8]) -> (r: bool)
    ensures
        r <==> a@ == b@,
{
    if a.len() != b.len() {
        return false;
    }
    let mut i: usize = 0;
    while i < a.len()
        invariant
            i <= a@.len(),
            a@.len() == b@.len(),
            forall|j: int| 0 <= j < i ==> a@[j] == b@[j],
        decreases a@.len() - i,
    {
        if a[i] != b[i] {
            return false;
        }
        i = i + 1;
    }
    proof {
        assert(a@ =~= b@);
    }
    true
}

} // verus!
