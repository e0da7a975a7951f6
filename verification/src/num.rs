//! Extra numeric types: powers of two that fit in a `u128`.
use vstd::prelude::*;
use vstd::arithmetic::power2::{pow2, lemma_pow2_adds, lemma_pow2_strictly_increases, lemma_pow2_subtracts};

verus! {

/// The largest exponent of a power of two that fits in a `u128`.
pub const MAX_EXPONENT: u8 = 127;

/// A power-of-two integer, `2^e` for an exponent `e` in `0..=127`.
///
/// All of these powers of two can be represented within a `u128`.
#[derive(Clone, Copy, PartialEq, Eq, Structural, PartialOrd, Ord, Hash)]
pub struct PowerOfTwo {
    exponent: u8,
}

impl PowerOfTwo {
    #[verifier::type_invariant]
    spec fn exponent_in_range(self) -> bool {
        self.exponent <= MAX_EXPONENT
    }

    /// The exponent `e` of this power of two `2^e`.
    pub closed spec fn exp(self) -> nat {
        self.exponent as nat
    }

    /// The integer `2^e` that this power of two stands for.
    pub open spec fn value(self) -> nat {
        pow2(self.exp())
    }

    /// The smallest power of two supported (`2^0`, or `1`).
    pub fn min_value() -> (r: PowerOfTwo)
        ensures
            r.exp() == 0,
    {
        PowerOfTwo { exponent: 0 }
    }

    /// The largest power of two supported (`2^127`).
    pub fn max_value() -> (r: PowerOfTwo)
        ensures
            r.exp() == MAX_EXPONENT,
    {
        PowerOfTwo { exponent: MAX_EXPONENT }
    }

    /// Create a [`PowerOfTwo`] given some exponent.
    ///
    /// Returns `None` if `exponent` is larger than `127`.
    pub fn from_exponent(exponent: u8) -> (r: Option<PowerOfTwo>)
        ensures
            r is Some <==> exponent <= MAX_EXPONENT,
            r matches Some(p) ==> p.exp() == exponent,
    {
        if exponent <= MAX_EXPONENT {
            Some(PowerOfTwo { exponent })
        } else {
            None
        }
    }

    /// Create a [`PowerOfTwo`] given some exponent that is known to be in range.
    pub fn from_exponent_unchecked(exponent: u8) -> (r: PowerOfTwo)
        requires
            exponent <= MAX_EXPONENT,
        ensures
            r.exp() == exponent,
    {
        match PowerOfTwo::from_exponent(exponent) {
            Some(power_of_two) => power_of_two,
            None => PowerOfTwo { exponent: 0 },
        }
    }

    /// Get the exponent for this power of two.
    pub fn to_exponent(self) -> (r: u8)
        ensures
            r == self.exp(),
            r <= MAX_EXPONENT,
    {
        proof {
            use_type_invariant(self);
        }
        self.exponent
    }

    /// Attempts to multiply two [`PowerOfTwo`] values.
    ///
    /// Returns `None` if the product does not fit in a `u128`.
    pub fn checked_mul(self, rhs: PowerOfTwo) -> (r: Option<PowerOfTwo>)
        ensures
            r is Some <==> self.exp() + rhs.exp() <= MAX_EXPONENT,
            r matches Some(p) ==> p.exp() == self.exp() + rhs.exp(),
    {
        let exponent = self.to_exponent() + rhs.to_exponent();
        PowerOfTwo::from_exponent(exponent)
    }

    /// Attempts to divide this [`PowerOfTwo`] value by another.
    ///
    /// Returns `None` if the quotient is not an integer power of two.
    pub fn checked_div(self, rhs: PowerOfTwo) -> (r: Option<PowerOfTwo>)
        ensures
            r is Some <==> self.exp() >= rhs.exp(),
            r matches Some(p) ==> p.exp() == self.exp() - rhs.exp(),
    {
        let exponent = match self.to_exponent().checked_sub(rhs.to_exponent()) {
            Some(exponent) => exponent,
            None => {
                return None;
            },
        };
        PowerOfTwo::from_exponent(exponent)
    }
}

impl Default for PowerOfTwo {
    /// The default power of two is the smallest one, `1`.
    fn default() -> (r: Self)
        ensures
            r.exp() == 0,
    {
        PowerOfTwo::min_value()
    }
}

/// Every power of two of this type is at most `2^127`, so it fits within a `u128`.
pub proof fn lemma_power_of_two_fits_u128(p: PowerOfTwo)
    requires
        p.exp() <= MAX_EXPONENT,
    ensures
        0 < p.value() <= u128::MAX,
{
    vstd::arithmetic::power2::lemma_pow2_pos(p.exp());
    vstd::arithmetic::power2::lemma2_to64();
    vstd::arithmetic::power2::lemma2_to64_rest();
    lemma_pow2_adds(64, 63);
    assert(pow2(127) == 0x8000_0000_0000_0000_0000_0000_0000_0000);
    if p.exp() < 127 {
        lemma_pow2_strictly_increases(p.exp(), 127);
    }
}

/// A power of two is determined by its exponent, so `from_exponent(p.to_exponent())` gives
/// back `p`.
pub proof fn lemma_exponent_determines(p: PowerOfTwo, q: PowerOfTwo)
    requires
        p.exp() == q.exp(),
    ensures
        p == q,
{
}

/// Multiplying powers of two multiplies the integers they stand for.
pub proof fn lemma_checked_mul_is_product(a: PowerOfTwo, b: PowerOfTwo, p: PowerOfTwo)
    requires
        p.exp() == a.exp() + b.exp(),
    ensures
        p.value() == a.value() * b.value(),
{
    lemma_pow2_adds(a.exp(), b.exp());
}

/// Dividing powers of two divides the integers they stand for, exactly.
pub proof fn lemma_checked_div_is_quotient(a: PowerOfTwo, b: PowerOfTwo, q: PowerOfTwo)
    requires
        a.exp() >= b.exp(),
        q.exp() == a.exp() - b.exp(),
    ensures
        q.value() == a.value() / b.value(),
        q.value() * b.value() == a.value(),
{
    lemma_pow2_subtracts(b.exp(), a.exp());
    lemma_pow2_adds(q.exp(), b.exp());
}

/// Division undoes multiplication: if `a * b` is a power of two of this type, then
/// dividing it by `b` gives back `a`.
pub proof fn lemma_div_undoes_mul(a: PowerOfTwo, b: PowerOfTwo, p: PowerOfTwo, q: PowerOfTwo)
    requires
        p.exp() == a.exp() + b.exp(),
        q.exp() == p.exp() - b.exp(),
    ensures
        p.exp() >= b.exp(),
        q.exp() == a.exp(),
        q.value() == a.value(),
{
}

/// The order of powers of two is the order of their exponents, which is the order of
/// the integers they stand for.
pub proof fn lemma_order_by_value(a: PowerOfTwo, b: PowerOfTwo)
    ensures
        a.exp() < b.exp() <==> a.value() < b.value(),
        a.exp() == b.exp() <==> a.value() == b.value(),
{
    if a.exp() < b.exp() {
        lemma_pow2_strictly_increases(a.exp(), b.exp());
    } else if b.exp() < a.exp() {
        lemma_pow2_strictly_increases(b.exp(), a.exp());
    }
}

/// Error type indicating that something was not a power of two.
#[derive(Debug, Clone, Copy, PartialEq, Eq, Structural, PartialOrd, Ord, Hash, Default)]
pub struct NotPowerOfTwo;

impl NotPowerOfTwo {
    /// The message that describes this error.
    pub fn description(&self) -> (r: &'static str)
        ensures
            r@ == "provided value was not a power of two"@,
    {
        "provided value was not a power of two"
    }
}

} // verus!
