use vstd::prelude::*;
use vstd::arithmetic::power2::{
    lemma2_to64, lemma_pow2_pos, lemma_pow2_strictly_increases, lemma_pow2_unfold, pow2,
};

verus! {

/// Number of bits needed to represent `b`: the smallest `n` with `b < 2^n`.
pub open spec fn bit_len(b: nat) -> nat
    decreases b,
{
    if b == 0 {
        0
    } else {
        bit_len(b / 2) + 1
    }
}

/// The address-space width recorded for a Realm VM whose largest guest
/// physical address is `b`: the smallest width of at least 32 bits that can
/// represent `b`, plus one bit of headroom (the hypervisor's convention is
/// that the width is specified as one more than the raw bit count).
pub open spec fn spec_ipa_width(b: nat) -> nat {
    (if bit_len(b) > 32 {
        bit_len(b)
    } else {
        32
    }) + 1
}

/// `b` is representable in `bit_len(b)` bits.
pub proof fn lemma_bit_len_covers(b: nat)
    ensures
        b < pow2(bit_len(b)),
    decreases b,
{
    if b == 0 {
        lemma_pow2_pos(0);
    } else {
        lemma_bit_len_covers(b / 2);
        lemma_pow2_unfold(bit_len(b));
    }
}

/// `bit_len(b)` is the least such bit count: any `n` bits that can hold `b`
/// satisfy `n >= bit_len(b)`.
pub proof fn lemma_bit_len_minimal(b: nat, n: nat)
    requires
        b < pow2(n),
    ensures
        bit_len(b) <= n,
    decreases b,
{
    if b > 0 {
        if n == 0 {
            lemma2_to64();
        } else {
            lemma_pow2_unfold(n);
            lemma_bit_len_minimal(b / 2, (n - 1) as nat);
        }
    }
}

/// A 64-bit value needs at most 64 bits.
pub proof fn lemma_bit_len_u64(v: u64)
    ensures
        bit_len(v as nat) <= 64,
{
    lemma2_to64();
    lemma_bit_len_minimal(v as nat, 64);
}

/// The computed address-space width is the smallest width of at least 32
/// bits that can represent the bound `b`, plus one bit of headroom: the raw
/// width `spec_ipa_width(b) - 1` is at least 32, covers `b`, and no smaller
/// width of at least 32 bits does.
pub proof fn lemma_ipa_width_minimal(b: nat)
    ensures
        spec_ipa_width(b) >= 33,
        b < pow2((spec_ipa_width(b) - 1) as nat),
        forall|w: nat| 32 <= w && b < #[trigger] pow2(w) ==> spec_ipa_width(b) - 1 <= w,
{
    lemma_bit_len_covers(b);
    let raw = (spec_ipa_width(b) - 1) as nat;
    if bit_len(b) < raw {
        lemma_pow2_strictly_increases(bit_len(b), raw);
    }
    assert forall|w: nat| 32 <= w && b < #[trigger] pow2(w) implies spec_ipa_width(b) - 1 <= w by {
        lemma_bit_len_minimal(b, w);
    }
}

/// Compute the address-space width for a Realm VM whose largest required
/// guest physical address is `max_ipa`.
pub fn ipa_width(max_ipa: u64) -> (w: u32)
    ensures
        w == spec_ipa_width(max_ipa as nat),
        33 <= w <= 65,
{
    proof {
        lemma_bit_len_u64(max_ipa);
    }
    let mut x: u64 = max_ipa;
    let mut n: u32 = 0;
    while x > 0
        invariant
            n + bit_len(x as nat) == bit_len(max_ipa as nat),
            bit_len(max_ipa as nat) <= 64,
        decreases x,
    {
        x = x / 2;
        n = n + 1;
    }
    if n < 32 {
        33
    } else {
        n + 1
    }
}

} // verus!
