//! Single-byte additive checksum used by the fixed-size command packets.
use vstd::prelude::*;
use vstd::arithmetic::div_mod::lemma_add_mod_noop;
use vstd::arithmetic::div_mod::lemma_small_mod;

verus! {

/// Mathematical sum of a byte sequence.
pub open spec fn sum_of(s: Seq<u8>) -> int
    decreases s.len(),
{
    if s.len() == 0 {
        0
    } else {
        sum_of(s.drop_last()) + s.last()
    }
}

/// The sum of bytes is never negative.
pub proof fn lemma_sum_of_nonneg(s: Seq<u8>)
    ensures
        0 <= sum_of(s),
    decreases s.len(),
{
    if s.len() > 0 {
        lemma_sum_of_nonneg(s.drop_last());
    }
}

/// Additive checksum over a byte range: the sum of all bytes, reduced to its
/// low 8 bits. Pure and total over any input length; the checksum of the
/// empty range is zero.
pub fn checksum(bytes: &[u8]) -> (r: u8)
    ensures
        r as int == sum_of(bytes@) % 256,
        bytes@.len() == 0 ==> r == 0,
{
    let n: usize = bytes.len();
    let mut acc: u16 = 0;
    let mut i: usize = 0;
    while i < n
        invariant
            n == bytes@.len(),
            0 <= i <= n,
            acc < 256,
            acc as int == sum_of(bytes@.take(i as int)) % 256,
        decreases n - i,
    {
        let b: u8 = bytes[i];
        proof {
            let pre = bytes@.take(i as int);
            let post = bytes@.take(i as int + 1);
            assert(post.drop_last() =~= pre);
            assert(post.last() == bytes@[i as int]);
            lemma_sum_of_nonneg(pre);
            lemma_small_mod(b as nat, 256);
            lemma_add_mod_noop(sum_of(pre), b as int, 256);
        }
        acc = (acc + b as u16) % 256;
        i = i + 1;
    }
    proof {
        assert(bytes@.take(n as int) =~= bytes@);
    }
    (acc % 256) as u8
}

} // verus!
