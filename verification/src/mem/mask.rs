//! Address masks: all leading bits one, all trailing bits zero.
use vstd::prelude::*;
use crate::bits::{
    is_power_of_two, usize_trailing_zeros, lemma_trailing_zeros, lemma_shl_one,
    lemma_power_of_two_bits, lemma_power_of_two_at_most_top_bit, lemma_single_bit_is_shl,
    lemma_pow2_exponent_bound,
};
use crate::mem::align::Align;
use vstd::std_specs::bits::{
    u64_leading_ones, u64_trailing_zeros, u32_leading_ones, u32_trailing_zeros,
    axiom_u64_leading_ones, axiom_u64_trailing_zeros, axiom_u32_leading_ones,
    axiom_u32_trailing_zeros,
};

verus! {

/// The mask of an alignment, `!(align - 1)`.
pub open spec fn mask_of(align: int) -> usize {
    !((align - 1) as usize)
}

/// The alignment of a mask, `!mask + 1`.
pub open spec fn align_of_mask(mask: usize) -> int {
    (!mask) as int + 1
}

/// `mask` is the mask of some alignment: it is nonzero and `!mask + 1` is a power of
/// two (equivalently, it has `n > 0` leading ones and `usize::BITS - n` trailing zeros).
pub open spec fn is_mask(mask: usize) -> bool {
    mask != 0 && is_power_of_two(align_of_mask(mask))
}

/// A `usize` bitmask that stores what bits are used for an address that is aligned to
/// some [`Align`]. All leading bits are one, and all trailing bits are zero, with no
/// holes in the middle. It is equal to `!(align - 1)`.
#[derive(Clone, Copy, PartialEq, Eq, Structural, Hash)]
pub struct Mask {
    repr: usize,
}

impl Mask {
    #[verifier::type_invariant]
    spec fn is_valid(self) -> bool {
        is_mask(self.repr)
    }

    /// The mask, as a machine word.
    pub closed spec fn view(self) -> usize {
        self.repr
    }

    /// The mask of the largest alignment: only the top bit is set.
    pub fn min_value() -> (r: Mask)
        ensures
            r@ == mask_of(crate::mem::align::max_align() as int),
    {
        Mask::from_align(Align::max_value())
    }

    /// The mask of the smallest alignment: all bits are set.
    pub fn max_value() -> (r: Mask)
        ensures
            r@ == usize::MAX,
            r@ == !0usize,
            r@ == mask_of(1),
    {
        let m = Mask::from_align(Align::min_value());
        proof {
            assert(!((1 - 1) as usize) == !0usize) by (bit_vector);
            crate::bits::lemma_all_ones();
        }
        m
    }

    /// Create a [`Mask`] from a nonzero `usize`.
    ///
    /// Returns `None` if `mask` is not the mask of an alignment.
    pub fn from_nonzero(mask: usize) -> (r: Option<Mask>)
        requires
            mask != 0,
        ensures
            r is Some <==> is_mask(mask),
            r matches Some(m) ==> m@ == mask,
    {
        let leading_ones_mask = mask;
        let zeros = (mask as u64).trailing_zeros();
        proof {
            assert(zeros == usize_trailing_zeros(mask));
            lemma_trailing_zeros(mask);
            lemma_shl_one(zeros as usize);
            vstd::arithmetic::power2::lemma_pow2_pos(zeros as nat);
            crate::bits::lemma_all_ones();
        }
        let trailing_zeros_mask = (1usize << zeros) - 1;
        if (leading_ones_mask ^ trailing_zeros_mask) == usize::MAX {
            proof {
                let t = zeros as usize;
                assert(t < usize::BITS && mask ^ (((1usize << t) - 1) as usize) == !0usize
                    ==> !mask == (((1usize << t) - 1) as usize)) by (bit_vector);
                assert(is_power_of_two(align_of_mask(mask)));
            }
            Some(Mask { repr: mask })
        } else {
            proof {
                if is_mask(mask) {
                    lemma_mask_bits(mask);
                    let t = zeros as usize;
                    let k = crate::bits::log2(align_of_mask(mask));
                    let ks = k as usize;
                    assert(ks < usize::BITS && t < usize::BITS
                        && mask == !(((1usize << ks) - 1) as usize)
                        && (mask >> t) & 1 == 1
                        && mask & (((1usize << t) - 1) as usize) == 0
                        ==> mask ^ (((1usize << t) - 1) as usize) == !0usize) by (bit_vector);
                }
            }
            None
        }
    }

    /// Create a [`Mask`] from a `usize`.
    ///
    /// Returns `None` if `mask` is not the mask of an alignment (zero included).
    pub fn new(mask: usize) -> (r: Option<Mask>)
        ensures
            r is Some <==> is_mask(mask),
            r matches Some(m) ==> m@ == mask,
    {
        if mask != 0 {
            Mask::from_nonzero(mask)
        } else {
            None
        }
    }

    /// Create a [`Mask`] from a `usize` that is known to be the mask of an alignment.
    pub fn new_unchecked(mask: usize) -> (r: Mask)
        requires
            is_mask(mask),
        ensures
            r@ == mask,
    {
        Mask { repr: mask }
    }

    /// The mask of an alignment, `!(align - 1)`.
    pub fn from_align(align: Align) -> (r: Mask)
        ensures
            r@ == mask_of(align@ as int),
    {
        let a = align.get_nonzero();
        proof {
            lemma_mask_of_is_mask(a);
        }
        Mask { repr: !(a - 1) }
    }

    /// The alignment of this mask, `!mask + 1`.
    pub fn align(self) -> (r: Align)
        ensures
            r@ == align_of_mask(self@),
    {
        let m = self.get();
        proof {
            assert(m != 0 ==> !m < !0usize) by (bit_vector);
        }
        Align::new((!m) + 1).unwrap()
    }

    /// Get this mask as a nonzero `usize`.
    pub fn get_nonzero(self) -> (r: usize)
        ensures
            r == self@,
            r != 0,
            is_mask(r),
    {
        proof {
            use_type_invariant(self);
        }
        self.repr
    }

    /// Get this mask as a `usize`.
    pub fn get(self) -> (r: usize)
        ensures
            r == self@,
            is_mask(r),
    {
        self.get_nonzero()
    }
}

/// Returns whether `value` has a hole: its set bits are not a run of leading ones
/// followed by only zeros (zero and every mask have no hole).
pub fn has_hole(value: usize) -> (r: bool)
    ensures
        r == !(value == 0 || is_mask(value)),
{
    if usize::BITS == 64 {
        let x = value as u64;
        let ones = x.leading_ones();
        let zeros = x.trailing_zeros();
        proof {
            lemma_u64_no_hole(x);
            lemma_no_hole_is_mask(value, zeros);
        }
        ones + zeros != 64
    } else {
        let x = value as u32;
        let ones = x.leading_ones();
        let zeros = x.trailing_zeros();
        proof {
            lemma_u32_no_hole(x);
            lemma_no_hole_is_mask(value, zeros);
        }
        ones + zeros != 32
    }
}

/// A 64-bit word has no hole exactly when its leading ones and trailing zeros make up all
/// of its bits.
proof fn lemma_u64_no_hole(x: u64)
    ensures
        (u64_leading_ones(x) + u64_trailing_zeros(x) == 64) <==> (x == 0 || (u64_trailing_zeros(
            x,
        ) < 64 && x == !(((1u64 << u64_trailing_zeros(x)) - 1) as u64))),
{
    axiom_u64_leading_ones(x);
    axiom_u64_trailing_zeros(x);
    let lo = u64_leading_ones(x) as u64;
    let tz = u64_trailing_zeros(x) as u64;
    assert(lo <= 64 && tz <= 64 && (x == 0 <==> tz == 64) && (x == 0xffff_ffff_ffff_ffffu64 <==> lo
        == 64) && (lo < 64 ==> (x >> ((63 - lo) as u64)) & 1 == 0) && (!x) >> ((64 - lo) as u64)
        == 0 && (tz < 64 ==> (x >> tz) & 1 == 1) && x << ((64 - tz) as u64) == 0 ==> ((lo + tz
        == 64) <==> (x == 0 || (tz < 64 && x == !(((1u64 << tz) - 1) as u64))))) by (bit_vector);
}

/// A 32-bit word has no hole exactly when its leading ones and trailing zeros make up all
/// of its bits.
proof fn lemma_u32_no_hole(x: u32)
    ensures
        (u32_leading_ones(x) + u32_trailing_zeros(x) == 32) <==> (x == 0 || (u32_trailing_zeros(
            x,
        ) < 32 && x == !(((1u32 << u32_trailing_zeros(x)) - 1) as u32))),
{
    axiom_u32_leading_ones(x);
    axiom_u32_trailing_zeros(x);
    let lo = u32_leading_ones(x);
    let tz = u32_trailing_zeros(x);
    assert(lo <= 32 && tz <= 32 && (x == 0 <==> tz == 32) && (x == 0xffff_ffffu32 <==> lo == 32)
        && (lo < 32 ==> (x >> ((31 - lo) as u32)) & 1 == 0) && (!x) >> ((32 - lo) as u32) == 0
        && (tz < 32 ==> (x >> tz) & 1 == 1) && x << ((32 - tz) as u32) == 0 ==> ((lo + tz == 32)
        <==> (x == 0 || (tz < 32 && x == !(((1u32 << tz) - 1) as u32))))) by (bit_vector);
}

/// A nonzero word of the form `!(2^t - 1)` is a mask, and a mask has that form for the
/// number `t` of its trailing zeros.
proof fn lemma_no_hole_is_mask(value: usize, t: u32)
    requires
        usize::BITS == 64 ==> (t == u64_trailing_zeros(value as u64)),
        usize::BITS == 32 ==> (t == u32_trailing_zeros(value as u32)),
    ensures
        (value == 0 || is_mask(value)) <==> (value == 0 || (t < usize::BITS && value == !(((1usize
            << t) - 1) as usize))),
{
    if value != 0 {
        if usize::BITS == 64 {
            axiom_u64_trailing_zeros(value as u64);
        } else {
            axiom_u32_trailing_zeros(value as u32);
        }
        let v = value;
        if usize::BITS == 64 {
            assert(usize::BITS == 64 && v != 0 && t < 64 && ((v as u64) >> (t as u64)) & 1 == 1
                && (v as u64) << ((64 - t) as u64) == 0 ==> (v >> t) & 1 == 1 && v & (((1usize
                << t) - 1) as usize) == 0) by (bit_vector);
            assert((v as u64) == 0 ==> v == 0) by (bit_vector);
        } else {
            assert(usize::BITS == 32 && v != 0 && t < 32 && ((v as u32) >> t) & 1 == 1 && (v
                as u32) << ((32 - t) as u32) == 0 ==> (v >> t) & 1 == 1 && v & (((1usize << t)
                - 1) as usize) == 0) by (bit_vector);
            assert(usize::BITS == 32 ==> ((v as u32) == 0 ==> v == 0)) by (bit_vector);
        }
        assert(t < usize::BITS);
        lemma_shl_one(t as usize);
        vstd::arithmetic::power2::lemma_pow2_pos(t as nat);
        if is_mask(value) {
            lemma_mask_bits(value);
            let k = crate::bits::log2(align_of_mask(value));
            let ks = k as usize;
            let ts = t as usize;
            assert(ks < usize::BITS && ts < usize::BITS && v == !(((1usize << ks) - 1) as usize) && (v
                >> ts) & 1 == 1 && v & (((1usize << ts) - 1) as usize) == 0 ==> v == !(((1usize
                << ts) - 1) as usize)) by (bit_vector);
        }
        if t < usize::BITS && value == !(((1usize << t) - 1) as usize) {
            let ts = t as usize;
            assert(ts < usize::BITS && v == !(((1usize << ts) - 1) as usize) ==> !v == (((1usize
                << ts) - 1) as usize)) by (bit_vector);
        }
    }
}

/// A word is zero or a mask exactly when it has no hole: its leading ones and its trailing
/// zeros make up all of its bits.
pub proof fn lemma_mask_iff_no_hole(value: usize)
    ensures
        usize::BITS == 64 ==> ((value == 0 || is_mask(value)) <==> u64_leading_ones(value as u64)
            + u64_trailing_zeros(value as u64) == 64),
        usize::BITS == 32 ==> ((value == 0 || is_mask(value)) <==> u32_leading_ones(value as u32)
            + u32_trailing_zeros(value as u32) == 32),
{
    if usize::BITS == 64 {
        lemma_u64_no_hole(value as u64);
        lemma_no_hole_is_mask(value, u64_trailing_zeros(value as u64) as u32);
    } else {
        lemma_u32_no_hole(value as u32);
        lemma_no_hole_is_mask(value, u32_trailing_zeros(value as u32) as u32);
    }
}

/// A mask is determined by its value, so `Mask::new(m.get())` gives back `m`.
pub proof fn lemma_mask_determined_by_value(a: Mask, b: Mask)
    requires
        a@ == b@,
    ensures
        a == b,
{
}

/// The bits of a mask: it is `!(2^k - 1)` for the exponent `k` of its alignment.
pub proof fn lemma_mask_bits(mask: usize)
    requires
        is_mask(mask),
    ensures
        crate::bits::log2(align_of_mask(mask)) < usize::BITS,
        mask == !((((1usize << (crate::bits::log2(align_of_mask(mask)) as usize)) - 1) as usize)),
        mask == mask_of(align_of_mask(mask)),
{
    let a = align_of_mask(mask);
    let k = crate::bits::log2(a);
    assert(mask != 0 ==> !mask < !0usize) by (bit_vector);
    lemma_pow2_exponent_bound(k);
    lemma_shl_one(k as usize);
    let am = (!mask) as usize;
    assert(!!mask == mask) by (bit_vector);
}

/// An alignment and its mask determine each other: `!(!(a - 1)) + 1 == a` for every
/// alignment `a`, and `!((!m + 1) - 1) == m` for every mask `m`.
pub proof fn lemma_mask_align_roundtrip(align: int, mask: usize)
    requires
        is_power_of_two(align),
        align <= usize::MAX,
        is_mask(mask),
    ensures
        is_mask(mask_of(align)),
        align_of_mask(mask_of(align)) == align,
        mask_of(align_of_mask(mask)) == mask,
{
    lemma_mask_of_is_mask(align as usize);
    lemma_mask_bits(mask);
}

/// Every word of `k` trailing zeros below all ones, `!(2^k - 1)` for `k < usize::BITS`, is a
/// mask (with the alignment `2^k`); `lemma_mask_bits` shows that every mask has this shape.
pub proof fn lemma_mask_shape(k: usize)
    requires
        k < usize::BITS,
    ensures
        is_mask(!(((1usize << k) - 1) as usize)),
        align_of_mask(!(((1usize << k) - 1) as usize)) == 1usize << k,
{
    lemma_shl_one(k);
    lemma_mask_of_is_mask(1usize << k);
}

/// The mask of an alignment is a mask, and its alignment is the alignment we started from.
pub proof fn lemma_mask_of_is_mask(a: usize)
    requires
        is_power_of_two(a as int),
    ensures
        is_mask(mask_of(a as int)),
        align_of_mask(mask_of(a as int)) == a,
{
    lemma_power_of_two_at_most_top_bit(a as int);
    lemma_power_of_two_bits(a);
    let top = (usize::BITS - 1) as usize;
    lemma_shl_one(top);
    assert(1 <= a ==> !(!(((a - 1) as usize))) == ((a - 1) as usize)) by (bit_vector);
    assert(1 <= a && a <= (1usize << top) && top == usize::BITS - 1 ==> !((a - 1) as usize) != 0)
        by (bit_vector);
}

} // verus!
