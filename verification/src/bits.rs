//! Facts about powers of two and the bits of machine words.
use vstd::prelude::*;
use vstd::arithmetic::power2::{
    pow2, lemma_pow2_pos, lemma_pow2_strictly_increases, lemma2_to64, lemma_pow2_unfold,
};
use vstd::bits::{
    lemma_usize_shl_is_mul, lemma_usize_pow2_no_overflow, lemma_usize_shr_is_div,
    lemma_usize_low_bits_mask_is_mod, low_bits_mask,
};
use vstd::std_specs::bits::{u64_trailing_zeros, axiom_u64_trailing_zeros};

verus! {

/// `x` is `2^k` for some natural number `k`.
pub open spec fn is_power_of_two(x: int) -> bool {
    exists|k: nat| pow2(k) == x
}

/// The exponent `k` of a power of two `x == 2^k`.
pub open spec fn log2(x: int) -> nat {
    choose|k: nat| pow2(k) == x
}

/// The number of trailing zero bits of a machine word.
pub open spec fn usize_trailing_zeros(x: usize) -> u32 {
    u64_trailing_zeros(x as u64)
}

/// A power of two that fits in a `usize` has an exponent below `usize::BITS`.
pub proof fn lemma_pow2_exponent_bound(k: nat)
    requires
        pow2(k) <= usize::MAX,
    ensures
        k < usize::BITS,
{
    lemma2_to64();
    if k >= usize::BITS {
        if k > usize::BITS {
            lemma_pow2_strictly_increases(usize::BITS as nat, k);
        }
    }
}

/// Shifting one left by `k` gives `2^k`.
pub proof fn lemma_shl_one(k: usize)
    requires
        k < usize::BITS,
    ensures
        (1usize << k) as int == pow2(k as nat),
        is_power_of_two((1usize << k) as int),
{
    lemma_usize_pow2_no_overflow(k as nat);
    lemma_usize_shl_is_mul(1, k);
}

/// The exponent of `2^k` is `k`.
pub proof fn lemma_log2_pow2(k: nat)
    ensures
        log2(pow2(k) as int) == k,
        is_power_of_two(pow2(k) as int),
{
    let j = log2(pow2(k) as int);
    assert(pow2(j) == pow2(k));
    if j < k {
        lemma_pow2_strictly_increases(j, k);
    } else if k < j {
        lemma_pow2_strictly_increases(k, j);
    }
}

/// The bit pattern of a power of two: nonzero with a single bit set.
pub proof fn lemma_power_of_two_bits(x: usize)
    ensures
        is_power_of_two(x as int) <==> (x != 0 && x & ((x - 1) as usize) == 0),
{
    if is_power_of_two(x as int) {
        let k = choose|k: nat| pow2(k) == x as int;
        lemma_pow2_exponent_bound(k);
        let s = k as usize;
        lemma_shl_one(s);
        assert(x == 1usize << s);
        assert(s < usize::BITS ==> (1usize << s) != 0 && (1usize << s) & (((1usize << s) - 1) as usize) == 0) by (bit_vector);
    }
    if x != 0 && x & ((x - 1) as usize) == 0 {
        lemma_single_bit_is_shl(x);
        let t = usize_trailing_zeros(x) as usize;
        lemma_shl_one(t);
    }
}

/// A nonzero word with a single bit set is one shifted left by its trailing zeros.
pub proof fn lemma_single_bit_is_shl(x: usize)
    requires
        x != 0,
        x & ((x - 1) as usize) == 0,
    ensures
        usize_trailing_zeros(x) < usize::BITS,
        x == 1usize << (usize_trailing_zeros(x) as usize),
{
    lemma_trailing_zeros(x);
    let t = usize_trailing_zeros(x) as usize;
    assert(x != 0 && x & ((x - 1) as usize) == 0 && t < usize::BITS && (x >> t) & 1 == 1
        && x & (((1usize << t) - 1) as usize) == 0 ==> x == 1usize << t) by (bit_vector);
}

/// The characteristic facts about the trailing zeros of a nonzero word: the bit at that
/// position is set and every bit below it is clear.
pub proof fn lemma_trailing_zeros(x: usize)
    requires
        x != 0,
    ensures
        usize_trailing_zeros(x) < usize::BITS,
        (x >> (usize_trailing_zeros(x) as usize)) & 1 == 1,
        x & (((1usize << (usize_trailing_zeros(x) as usize)) - 1) as usize) == 0,
{
    let y = x as u64;
    axiom_u64_trailing_zeros(y);
    let t = u64_trailing_zeros(y) as u64;
    assert(y == x);
    assert(t < 64 && (y >> t) & 1 == 1 && y == x && x < 0x1_0000_0000 ==> t < 32) by (bit_vector);
    assert(usize::BITS == 32 ==> x < 0x1_0000_0000);
    let ts = t as usize;
    assert(t < 64 && (y >> t) & 1 == 1 && y << ((64 - t) as u64) == 0 && y == x && ts == t
        && ts < usize::BITS ==> (x >> ts) & 1 == 1 && x & (((1usize << ts) - 1) as usize) == 0) by (bit_vector);
}

/// `p` is the largest power of two that divides `x`: it divides `x`, and the quotient
/// is odd.
pub open spec fn largest_power_of_two_dividing(x: int, p: int) -> bool {
    &&& is_power_of_two(p)
    &&& x % p == 0
    &&& (x / p) % 2 == 1
}

/// Every power of two `2^k` is a power of two.
pub proof fn lemma_pow2_is_power_of_two(k: nat)
    ensures
        is_power_of_two(pow2(k) as int),
{
    assert(pow2(k) == pow2(k));
}

/// One is a power of two (`2^0`).
pub proof fn lemma_one_is_power_of_two()
    ensures
        is_power_of_two(1),
        pow2(0) == 1,
{
    lemma2_to64();
    lemma_pow2_is_power_of_two(0);
}

/// A power of two that fits in a `usize` is at most `2^(usize::BITS - 1)`.
pub proof fn lemma_power_of_two_at_most_top_bit(x: int)
    requires
        is_power_of_two(x),
        x <= usize::MAX,
    ensures
        x <= pow2((usize::BITS - 1) as nat),
        pow2((usize::BITS - 1) as nat) <= usize::MAX,
        0 < x,
{
    let k = choose|k: nat| pow2(k) == x;
    lemma_pow2_exponent_bound(k);
    lemma_pow2_pos(k);
    if k < usize::BITS - 1 {
        lemma_pow2_strictly_increases(k, (usize::BITS - 1) as nat);
    }
    lemma_usize_pow2_no_overflow((usize::BITS - 1) as nat);
}

/// The power of two given by the trailing zeros of a nonzero word is the largest power
/// of two that divides it.
pub proof fn lemma_trailing_zeros_divides(x: usize)
    requires
        x != 0,
    ensures
        usize_trailing_zeros(x) < usize::BITS,
        pow2(usize_trailing_zeros(x) as nat) == 1usize << (usize_trailing_zeros(x) as usize),
        largest_power_of_two_dividing(x as int, pow2(usize_trailing_zeros(x) as nat) as int),
{
    lemma_trailing_zeros(x);
    let t = usize_trailing_zeros(x) as usize;
    lemma_shl_one(t);
    lemma_pow2_pos(t as nat);
    lemma_usize_low_bits_mask_is_mod(x, t as nat);
    assert(low_bits_mask(t as nat) == pow2(t as nat) - 1);
    assert(x & (low_bits_mask(t as nat) as usize) == x % (pow2(t as nat) as usize));
    lemma_usize_shr_is_div(x, t);
    assert((x >> t) & 1 == 1 ==> (x >> t) % 2 == 1) by (bit_vector);
}

/// The word with all bits set is the largest word.
pub proof fn lemma_all_ones()
    ensures
        !0usize == usize::MAX,
{
    lemma_at_most_all_ones(usize::MAX);
}

proof fn lemma_at_most_all_ones(x: usize)
    by (bit_vector)
    ensures
        x <= !0usize,
{
}

/// Whether a machine word is a power of two (the same as `usize::is_power_of_two`).
pub fn usize_is_power_of_two(x: usize) -> (r: bool)
    ensures
        r == is_power_of_two(x as int),
{
    proof {
        lemma_power_of_two_bits(x);
    }
    x != 0 && x & (x - 1) == 0
}

} // verus!
