//! Alignments: power-of-two `usize`s.
use vstd::prelude::*;
use vstd::arithmetic::power2::pow2;
use vstd::arithmetic::div_mod::{lemma_fundamental_div_mod, lemma_small_mod};
use vstd::layout::{align_of, layout_for_type_is_valid};
use core::alloc::{Layout, LayoutError};
use core::cmp::Ordering;
use crate::bits::{
    is_power_of_two, largest_power_of_two_dividing, usize_trailing_zeros, usize_is_power_of_two,
    lemma_one_is_power_of_two, lemma_pow2_is_power_of_two, lemma_shl_one,
    lemma_power_of_two_at_most_top_bit, lemma_trailing_zeros_divides, lemma_single_bit_is_shl,
    lemma_power_of_two_bits,
};
use crate::mem::mask::{Mask, is_mask, mask_of};
use crate::mem::order;
use crate::num::NotPowerOfTwo;

verus! {

#[verifier::external_type_specification]
#[verifier::external_body]
pub struct ExLayout(Layout);

#[verifier::external_type_specification]
#[verifier::external_body]
pub struct ExLayoutError(LayoutError);

/// What std's `Layout::size` returns for a layout.
pub uninterp spec fn layout_size_of(layout: Layout) -> usize;

/// What std's `Layout::align` returns for a layout.
pub uninterp spec fn layout_align_of(layout: Layout) -> usize;

/// `Layout::from_size_align`: as its documentation states, it succeeds exactly when
/// `align` is a power of two and `size`, rounded up to a multiple of `align`, does not
/// exceed `isize::MAX`, and the layout it constructs has the given size and alignment.
#[verifier::external_body]
fn layout_from_size_align(size: usize, align: usize) -> (r: Result<Layout, LayoutError>)
    ensures
        r is Ok <==> (is_power_of_two(align as int) && size <= isize::MAX - ((isize::MAX as int)
            % (align as int))),
        r matches Ok(layout) ==> layout_size_of(layout) == size && layout_align_of(layout)
            == align,
{
    Layout::from_size_align(size, align)
}

/// The smallest multiple of `align` that is at least `size`.
pub open spec fn round_up(size: int, align: int) -> int {
    (size + align - 1) / align * align
}

/// The largest alignment, `2^(usize::BITS - 1)` (which is `isize::MAX + 1`).
pub open spec fn max_align() -> nat {
    pow2((usize::BITS - 1) as nat)
}

/// An [`Align`] is a power-of-two `usize` that represents a possibly-valid alignment for
/// an allocation.
#[derive(Debug, Clone, Copy, PartialEq, Eq, Structural, PartialOrd, Ord, Hash)]
pub struct Align {
    repr: usize,
}

impl Align {
    #[verifier::type_invariant]
    spec fn is_valid(self) -> bool {
        is_power_of_two(self.repr as int)
    }

    /// The alignment, as an integer.
    pub closed spec fn view(self) -> nat {
        self.repr as nat
    }

    /// The smallest valid alignment (`2^0`, or `1`).
    pub fn min_value() -> (r: Align)
        ensures
            r@ == 1,
    {
        proof {
            lemma_one_is_power_of_two();
        }
        Align { repr: 1 }
    }

    /// The largest valid alignment (`2^(usize::BITS - 1)`, or `isize::MAX + 1`).
    pub fn max_value() -> (r: Align)
        ensures
            r@ == max_align(),
            r@ == isize::MAX + 1,
    {
        let shift = usize::BITS - 1;
        proof {
            lemma_shl_one(shift as usize);
            lemma_one_is_power_of_two();
            lemma_power_of_two_at_most_top_bit(1);
            vstd::arithmetic::power2::lemma2_to64();
            vstd::arithmetic::power2::lemma2_to64_rest();
        }
        Align { repr: 1usize << shift }
    }

    /// Create an [`Align`] from a nonzero `usize`.
    ///
    /// Returns `None` if `align` is not a power of two.
    pub fn from_nonzero(align: usize) -> (r: Option<Align>)
        requires
            align != 0,
        ensures
            r is Some <==> is_power_of_two(align as int),
            r matches Some(a) ==> a@ == align,
    {
        if usize_is_power_of_two(align) {
            Some(Align { repr: align })
        } else {
            None
        }
    }

    /// Create an [`Align`] from a `usize`.
    ///
    /// Returns `None` if `align` is not a power of two.
    pub fn new(align: usize) -> (r: Option<Align>)
        ensures
            r is Some <==> is_power_of_two(align as int),
            r matches Some(a) ==> a@ == align,
    {
        if usize_is_power_of_two(align) {
            Some(Align { repr: align })
        } else {
            None
        }
    }

    /// Create an [`Align`] from a `usize` that is known to be a power of two.
    pub fn new_unchecked(align: usize) -> (r: Align)
        requires
            is_power_of_two(align as int),
        ensures
            r@ == align,
    {
        Align { repr: align }
    }

    /// Get the [`Align`] of some [`Layout`].
    pub fn from_layout(layout: Layout) -> (r: Align)
        ensures
            r@ == layout_align_of(layout),
    {
        let align = layout_align(&layout);
        Align { repr: align }
    }

    /// Get the alignment of a nonzero memory address: the largest power of two that
    /// divides it.
    pub fn from_addr_nonzero(addr: usize) -> (r: Align)
        requires
            addr != 0,
        ensures
            largest_power_of_two_dividing(addr as int, r@ as int),
    {
        let zeros = (addr as u64).trailing_zeros();
        proof {
            assert(zeros == usize_trailing_zeros(addr));
            lemma_trailing_zeros_divides(addr);
        }
        let align = 1usize << zeros;
        Align::new(align).unwrap()
    }

    /// Get the alignment of a memory address.
    ///
    /// Returns `None` if the address is null.
    pub fn from_addr(addr: usize) -> (r: Option<Align>)
        ensures
            r is None <==> addr == 0,
            r matches Some(a) ==> largest_power_of_two_dividing(addr as int, a@ as int),
    {
        if addr != 0 {
            Some(Align::from_addr_nonzero(addr))
        } else {
            None
        }
    }

    /// Get the alignment of the type `T`.
    pub fn of<T>() -> (r: Align)
        ensures
            r@ == align_of::<T>(),
    {
        layout_for_type_is_valid::<T>();
        let align = core::mem::align_of::<T>();
        proof {
            broadcast use vstd::arithmetic::power2::is_pow2_equiv;
            assert(vstd::arithmetic::power2::is_pow2(align as int));
            let i = choose|i: nat| vstd::arithmetic::power::pow(2, i) == align as int;
            vstd::arithmetic::power2::lemma_pow2(i);
            lemma_pow2_is_power_of_two(i);
        }
        Align { repr: align }
    }

    /// Get this alignment as a nonzero `usize`.
    pub fn get_nonzero(self) -> (r: usize)
        ensures
            r == self@,
            r != 0,
            is_power_of_two(r as int),
    {
        proof {
            use_type_invariant(self);
            lemma_power_of_two_bits(self.repr);
        }
        self.repr
    }

    /// Get this alignment as a `usize`.
    pub fn get(self) -> (r: usize)
        ensures
            r == self@,
            is_power_of_two(r as int),
    {
        self.get_nonzero()
    }

    /// Calculate the [`Mask`] for this alignment, `!(align - 1)`.
    pub fn mask(self) -> (r: Mask)
        ensures
            r@ == mask_of(self@ as int),
    {
        Mask::from_align(self)
    }

    /// Calculate the base-two logarithm of this alignment.
    pub fn log2(self) -> (r: u32)
        ensures
            pow2(r as nat) == self@,
            r < usize::BITS,
    {
        let x = self.get_nonzero();
        proof {
            lemma_power_of_two_bits(x);
            lemma_single_bit_is_shl(x);
            lemma_shl_one(usize_trailing_zeros(x) as usize);
        }
        (x as u64).trailing_zeros()
    }

    /// Calculate the alignment for a [`Mask`], `!mask + 1`.
    pub fn from_mask(mask: Mask) -> (r: Align)
        ensures
            r@ == crate::mem::mask::align_of_mask(mask@),
    {
        mask.align()
    }

    /// Create a [`Layout`] for this alignment and some size.
    ///
    /// Fails exactly when `size`, rounded up to a multiple of this alignment, exceeds
    /// `isize::MAX`.
    pub fn layout_with_size(self, size: usize) -> (r: Result<Layout, LayoutError>)
        ensures
            r is Ok <==> size <= isize::MAX - ((isize::MAX as int) % (self@ as int)),
            r matches Ok(layout) ==> layout_size_of(layout) == size && layout_align_of(layout)
                == self@,
    {
        let align = self.get();
        layout_from_size_align(size, align)
    }

    /// Round up some size to a multiple of this alignment.
    ///
    /// Returns `None` if the rounded size is zero (that is, `size` is zero) or does not
    /// fit in a `usize`.
    pub fn round_up_size(self, size: usize) -> (r: Option<usize>)
        ensures
            r is Some <==> (0 < size && round_up(size as int, self@ as int) <= usize::MAX),
            r matches Some(n) ==> n == round_up(size as int, self@ as int),
            r matches Some(n) ==> n != 0 && (n as int) % (self@ as int) == 0,
    {
        let align = self.get_nonzero();
        let mask = self.mask();
        let mask_bits = mask.get();
        let sum = size.wrapping_add(align - 1);
        let new_size = sum & mask_bits;
        proof {
            lemma_round_up_by_mask(size, align, sum, mask_bits, new_size);
        }
        if new_size != 0 {
            Some(new_size)
        } else {
            None
        }
    }

    /// Calculate the maximum size for this alignment, `Align::max_value() - self`.
    pub fn max_size(self) -> (r: usize)
        ensures
            r == max_align() - self@,
    {
        let max = Align::max_value().get();
        let align = self.get();
        proof {
            lemma_power_of_two_at_most_top_bit(align as int);
        }
        max - align
    }

    /// Perform a three-way comparison of two alignments.
    pub fn compare(self, rhs: Align) -> (r: Ordering)
        ensures
            r == order::ordering_of(self.view_usize(), rhs.view_usize()),
    {
        order::compare(self.get(), rhs.get())
    }

    /// The alignment, as a `usize`.
    pub closed spec fn view_usize(self) -> usize {
        self.repr
    }

    /// The smaller of two alignments.
    pub fn min(self, other: Align) -> (r: Align)
        ensures
            r@ == (if other@ < self@ { other@ } else { self@ }),
    {
        let value = order::min(self.get(), other.get());
        Align { repr: value }
    }

    /// The larger of two alignments.
    pub fn max(self, other: Align) -> (r: Align)
        ensures
            r@ == (if other@ < self@ { self@ } else { other@ }),
    {
        let value = order::max(self.get(), other.get());
        Align { repr: value }
    }

    /// Clamp this alignment between `min` and `max`.
    ///
    /// Returns `None` if `max < min`.
    pub fn clamp(self, min: Align, max: Align) -> (r: Option<Align>)
        ensures
            r is Some <==> min@ <= max@,
            r matches Some(a) ==> a@ == (if self@ < min@ {
                min@
            } else if self@ > max@ {
                max@
            } else {
                self@
            }),
    {
        let a = self.get();
        let lo = min.get();
        let hi = max.get();
        match order::clamp(a, lo, hi) {
            Some(value) => Some(Align { repr: value }),
            None => None,
        }
    }
}

/// An alignment is determined by its value, so `Align::new(a.get())` gives back `a`.
pub proof fn lemma_align_determined_by_value(a: Align, b: Align)
    requires
        a@ == b@,
    ensures
        a == b,
{
}

/// The value of an alignment as a `usize` is its value.
pub proof fn lemma_view_usize(a: Align)
    ensures
        a.view_usize() as nat == a@,
{
}

/// The alignment of the mask of an alignment `a` is `a` again.
pub proof fn lemma_mask_then_align(a: Align, m: Mask)
    requires
        is_power_of_two(a@ as int),
        m@ == mask_of(a@ as int),
    ensures
        crate::mem::mask::align_of_mask(m@) == a@,
{
    lemma_power_of_two_at_most_top_bit(a@ as int);
    crate::mem::mask::lemma_mask_of_is_mask(a@ as usize);
}

/// Alignments and masks are in bijection: the alignment of the mask of `a` is `a`, and
/// the mask of the alignment of `m` is `m` (so `Align::from_mask(a.mask()) == a` and
/// `Align::from_mask(m).mask() == m`).
pub proof fn lemma_align_mask_bijection(
    a: Align,
    m_of_a: Mask,
    a_of_m_of_a: Align,
    m: Mask,
    a_of_m: Align,
    m_of_a_of_m: Mask,
)
    requires
        is_power_of_two(a@ as int),
        is_mask(m@),
        m_of_a@ == mask_of(a@ as int),
        a_of_m_of_a@ == crate::mem::mask::align_of_mask(m_of_a@),
        a_of_m@ == crate::mem::mask::align_of_mask(m@),
        m_of_a_of_m@ == mask_of(a_of_m@ as int),
    ensures
        a_of_m_of_a == a,
        m_of_a_of_m == m,
{
    lemma_power_of_two_at_most_top_bit(a@ as int);
    crate::mem::mask::lemma_mask_align_roundtrip(a@ as int, m@);
    crate::mem::mask::lemma_mask_determined_by_value(m_of_a_of_m, m);
}

/// `Layout::align`: the alignment of a layout, which, as its documentation states, is
/// always a power of two.
#[verifier::external_body]
fn layout_align(layout: &Layout) -> (r: usize)
    ensures
        r == layout_align_of(*layout),
        is_power_of_two(r as int),
{
    layout.align()
}

/// Rounding up by adding `align - 1` (wrapping) and clearing the bits below `align`.
proof fn lemma_round_up_by_mask(size: usize, align: usize, sum: usize, mask: usize, result: usize)
    requires
        is_power_of_two(align as int),
        sum == (if size + align - 1 <= usize::MAX { size + align - 1 } else { size + align - 1
            - usize::MAX - 1 }),
        mask == mask_of(align as int),
        result == sum & mask,
    ensures
        result != 0 <==> (0 < size && round_up(size as int, align as int) <= usize::MAX),
        result != 0 ==> result == round_up(size as int, align as int),
        (result as int) % (align as int) == 0,
{
    lemma_power_of_two_bits(align);
    lemma_single_bit_is_shl(align);
    let t = usize_trailing_zeros(align) as usize;
    lemma_shl_one(t);
    vstd::bits::lemma_usize_low_bits_mask_is_mod(sum, t as nat);
    assert(vstd::bits::low_bits_mask(t as nat) == align - 1);
    assert(sum & !(((align - 1) as usize)) == sum - (sum & ((align - 1) as usize))) by (bit_vector);
    let a = align as int;
    let q = sum as int / a;
    let r = sum as int % a;
    assert(sum & ((align - 1) as usize) == r);
    assert(result == sum - r);
    lemma_fundamental_div_mod(sum as int, a);
    vstd::arithmetic::div_mod::lemma_mod_bound(sum as int, a);
    assert(result == a * q);
    assert(a * q == q * a) by (nonlinear_arith);
    vstd::arithmetic::div_mod::lemma_mod_multiples_basic(q, a);
    assert((a * q == 0) <==> (q == 0)) by (nonlinear_arith)
        requires
            a > 0,
    ;
    if size + align - 1 <= usize::MAX {
        assert(q == (size as int + a - 1) / a);
        assert(round_up(size as int, a) == q * a);
        if size == 0 {
            lemma_small_mod((align - 1) as nat, align as nat);
            vstd::arithmetic::div_mod::lemma_basic_div(sum as int, a);
        } else {
            assert(q >= 1) by (nonlinear_arith)
                requires
                    sum as int == a * q + r,
                    r < a,
                    sum >= a,
                    a > 0,
            ;
        }
    } else {
        assert(sum < align);
        vstd::arithmetic::div_mod::lemma_basic_div(sum as int, a);
        lemma_round_up_overflows(size, align);
    }
}

/// Rounding up gives the least multiple of the alignment that is at least the size.
pub proof fn lemma_round_up_is_least_multiple(size: int, align: int)
    requires
        0 <= size,
        0 < align,
    ensures
        round_up(size, align) >= size,
        round_up(size, align) % align == 0,
        round_up(size, align) - align < size,
{
    let n = (size + align - 1) / align;
    lemma_fundamental_div_mod(size + align - 1, align);
    vstd::arithmetic::div_mod::lemma_mod_bound(size + align - 1, align);
    assert(n * align == align * n) by (nonlinear_arith);
    vstd::arithmetic::div_mod::lemma_mod_multiples_basic(n, align);
}

/// When `size + align - 1` overflows, so does the rounded-up size.
proof fn lemma_round_up_overflows(size: usize, align: usize)
    requires
        is_power_of_two(align as int),
        size + align - 1 > usize::MAX,
    ensures
        round_up(size as int, align as int) > usize::MAX,
{
    let k = crate::bits::log2(align as int);
    assert(pow2(k) == align);
    crate::bits::lemma_pow2_exponent_bound(k);
    vstd::arithmetic::power2::lemma_pow2_subtracts(k, usize::BITS as nat);
    vstd::arithmetic::power2::lemma2_to64();
    let m = pow2(usize::BITS as nat) as int;
    assert(m == usize::MAX + 1);
    let q = m / align as int;
    assert(q * align == m) by {
        vstd::arithmetic::power2::lemma_pow2_adds((usize::BITS - k) as nat, k);
        assert(pow2((usize::BITS - k) as nat) * pow2(k) == m);
        vstd::arithmetic::div_mod::lemma_div_multiples_vanish(pow2((usize::BITS - k) as nat) as int, align as int);
    }
    let n = (size + align - 1) / align as int;
    vstd::arithmetic::div_mod::lemma_fundamental_div_mod((size + align - 1) as int, align as int);
    assert(n * align > (size + align - 1) - align);
    assert(n * align >= m) by (nonlinear_arith)
        requires
            n * align > size - 1,
            size + align - 1 >= m,
            q * align == m,
            align > 0,
    {
        if n < q {
            assert(n * align <= (q - 1) * align);
        } else {
            assert(n * align >= q * align);
        }
    }
}

impl From<Align> for usize {
    fn from(align: Align) -> (r: usize)
        ensures
            r == align@,
    {
        align.get()
    }
}

impl vstd::std_specs::convert::FromSpecImpl<Align> for usize {
    open spec fn obeys_from_spec() -> bool {
        true
    }

    open spec fn from_spec(v: Align) -> usize {
        v.view_usize()
    }
}

impl vstd::std_specs::convert::TryFromSpecImpl<usize> for Align {
    open spec fn obeys_try_from_spec() -> bool {
        true
    }

    closed spec fn try_from_spec(v: usize) -> Result<Align, AlignError> {
        if is_power_of_two(v as int) {
            Ok(Align { repr: v })
        } else {
            Err(AlignError)
        }
    }
}

impl vstd::std_specs::convert::FromSpecImpl<Mask> for Align {
    open spec fn obeys_from_spec() -> bool {
        true
    }

    closed spec fn from_spec(v: Mask) -> Align {
        Align { repr: crate::mem::mask::align_of_mask(v@) as usize }
    }
}

impl From<Mask> for Align {
    fn from(mask: Mask) -> (r: Align)
        ensures
            r@ == crate::mem::mask::align_of_mask(mask@),
    {
        mask.align()
    }
}

impl Default for Align {
    /// The default alignment is the smallest one, `1`.
    fn default() -> (r: Self)
        ensures
            r@ == 1,
    {
        Align::min_value()
    }
}

/// An error for when an [`Align`] could not be created.
#[derive(Debug, Clone, Copy, PartialEq, Eq, Structural, PartialOrd, Ord, Hash)]
pub struct AlignError;

impl AlignError {
    /// The message that describes this error.
    pub fn description(&self) -> (r: &'static str)
        ensures
            r@ == "could not create an `Align`"@,
    {
        "could not create an `Align`"
    }
}

impl From<NotPowerOfTwo> for AlignError {
    fn from(_error: NotPowerOfTwo) -> (r: AlignError)
        ensures
            r == AlignError,
    {
        AlignError
    }
}

impl TryFrom<usize> for Align {
    type Error = AlignError;

    fn try_from(align: usize) -> (r: Result<Align, AlignError>)
        ensures
            r is Ok <==> is_power_of_two(align as int),
            r matches Ok(a) ==> a@ == align,
    {
        match Align::new(align) {
            Some(a) => Ok(a),
            None => Err(AlignError),
        }
    }
}

} // verus!
