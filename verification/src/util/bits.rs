//! Bit lengths of natural numbers and the byte counts that hold them.

use vstd::arithmetic::power2::{lemma_pow2_pos, lemma_pow2_unfold, pow2};
use vstd::prelude::*;

verus! {

/// The fewest binary digits that write `n`: 0 for 0, and otherwise one more
/// than the position of the highest set bit.
pub open spec fn bit_length(n: nat) -> nat
    decreases n,
{
    if n == 0 {
        0
    } else {
        1 + bit_length(n / 2)
    }
}

/// The fewest whole bytes that hold `bits` bits.
pub open spec fn bytes_for_bits(bits: nat) -> nat {
    (bits + 7) / 8
}

/// A number takes at most `k` bits exactly when it is below `2^k`.
pub proof fn lemma_bit_length_at_most(n: nat, k: nat)
    ensures
        bit_length(n) <= k <==> n < pow2(k),
    decreases k,
{
    lemma_pow2_pos(k);
    if n == 0 {
    } else if k == 0 {
        assert(pow2(0) == 1) by {
            vstd::arithmetic::power2::lemma2_to64();
        }
    } else {
        lemma_pow2_unfold(k);
        lemma_bit_length_at_most(n / 2, (k - 1) as nat);
    }
}

/// The number of bytes that an unsigned quantity of `bits` bits occupies.
pub fn unsigned_byte_len(bits: u64) -> (bytes: u64)
    ensures
        bytes == bytes_for_bits(bits as nat),
{
    if bits % 8 == 0 {
        bits / 8
    } else {
        bits / 8 + 1
    }
}

/// The number of bytes that a signed quantity occupies whose magnitude has
/// `bits` bits: one more bit is needed for the sign.
pub fn signed_byte_len(bits: u64) -> (bytes: u64)
    ensures
        bytes == bytes_for_bits(bits as nat + 1),
{
    bits / 8 + 1
}

} // verus!
