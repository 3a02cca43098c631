//! Checksum engine for DMC v2 frames.
//!
//! The checksum of a frame is the 16-bit additive sum of every byte that
//! precedes the checksum field (marker, id, type, length and payload),
//! taken modulo 2^16. An additive 16-bit sum detects every single-byte
//! corruption of the covered region, because a change to one byte moves
//! the sum by a non-zero amount whose magnitude is below 2^16.
//!
//! The engine is pure: the checksum depends on the covered bytes alone.

use vstd::prelude::*;
use vstd::arithmetic::div_mod::lemma_add_mod_noop;
use vstd::arithmetic::div_mod::lemma_small_mod;

verus! {

/// Sum of the bytes of `s`, as an unbounded integer.
pub open spec fn sum_bytes(s: Seq<u8>) -> int
    decreases s.len(),
{
    if s.len() == 0 {
        0
    } else {
        sum_bytes(s.drop_last()) + s.last()
    }
}

/// The frame checksum over `s`: the byte sum reduced modulo 2^16.
pub open spec fn checksum_of(s: Seq<u8>) -> u16 {
    (sum_bytes(s) % 0x10000) as u16
}

/// The byte sum is never negative.
pub proof fn lemma_sum_bytes_nonneg(s: Seq<u8>)
    ensures
        0 <= sum_bytes(s),
    decreases s.len(),
{
    if s.len() > 0 {
        lemma_sum_bytes_nonneg(s.drop_last());
    }
}

/// Replacing the byte at index `i` by `v` moves the byte sum by exactly
/// `v - s[i]`.
pub proof fn lemma_sum_bytes_update(s: Seq<u8>, i: int, v: u8)
    requires
        0 <= i < s.len(),
    ensures
        sum_bytes(s.update(i, v)) == sum_bytes(s) - s[i] + v,
    decreases s.len(),
{
    let t = s.update(i, v);
    if i == s.len() - 1 {
        assert(t.drop_last() =~= s.drop_last());
        assert(t.last() == v);
    } else {
        assert(t.drop_last() =~= s.drop_last().update(i, v));
        assert(t.last() == s.last());
        lemma_sum_bytes_update(s.drop_last(), i, v);
    }
}

/// Computes the frame checksum over the first `n` bytes of `data`.
pub fn compute_checksum(data: &[u8], n: usize) -> (r: u16)
    requires
        n <= data@.len(),
    ensures
        r == checksum_of(data@.take(n as int)),
{
    let mut acc: u16 = 0;
    let mut i: usize = 0;
    while i < n
        invariant
            i <= n <= data@.len(),
            acc == sum_bytes(data@.take(i as int)) % 0x10000,
        decreases n - i,
    {
        let b: u8 = data[i];
        proof {
            let p = data@.take(i as int);
            let q = data@.take(i + 1);
            assert(q.drop_last() =~= p);
            assert(q.last() == b);
            lemma_add_mod_noop(sum_bytes(p), b as int, 0x10000);
            lemma_small_mod(b as nat, 0x10000);
        }
        acc = (((acc as u32) + (b as u32)) % 0x10000) as u16;
        i = i + 1;
    }
    proof {
        lemma_sum_bytes_nonneg(data@.take(n as int));
        lemma_small_mod((sum_bytes(data@.take(n as int)) % 0x10000) as nat, 0x10000);
    }
    acc
}

} // verus!
