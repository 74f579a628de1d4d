//! Single-precision numbers as bit patterns.
//!
//! The tracer's decisions compare distances, cosines and samples; they never
//! add or multiply them. A [`Scalar`] carries the 32-bit pattern of an
//! IEEE 754 binary32 number, and everything here is integer work on that
//! pattern: ordering, sign changes, and picking one of several values.
//! Arithmetic is left to the caller.
use vstd::prelude::*;
use vstd::arithmetic::power2::{pow2, lemma_pow2_pos, lemma_pow2_unfold, lemma_pow2_strictly_increases};

verus! {

/// The bit of a pattern that holds the sign.
pub const SIGN_BIT: u32 = 0x8000_0000;

/// The pattern of positive infinity. A larger magnitude encodes no number.
pub const INFINITY_BITS: u32 = 0x7f80_0000;

/// Number of patterns that share one exponent.
pub const FRACTION_SPAN: u32 = 0x0080_0000;

/// The pattern of `0.0`.
pub const ZERO_BITS: u32 = 0x0000_0000;

/// The pattern of `1.0`.
pub const ONE_BITS: u32 = 0x3f80_0000;

/// The pattern of `-1.0`.
pub const MINUS_ONE_BITS: u32 = 0xbf80_0000;

/// A single-precision binary floating-point number, held as its bit pattern.
#[derive(Clone, Copy, Debug)]
pub struct Scalar {
    pub bits: u32,
}

impl Scalar {
    /// The pattern with the sign bit cleared.
    pub open spec fn magnitude(self) -> nat {
        if self.bits >= SIGN_BIT {
            (self.bits - SIGN_BIT) as nat
        } else {
            self.bits as nat
        }
    }

    /// Whether the sign bit is set. True of `-0.0` too.
    pub open spec fn sign_negative(self) -> bool {
        self.bits >= SIGN_BIT
    }

    /// Whether the pattern encodes no number.
    pub open spec fn is_nan(self) -> bool {
        self.magnitude() > INFINITY_BITS
    }

    /// Whether the pattern encodes a number other than an infinity.
    pub open spec fn is_finite(self) -> bool {
        self.magnitude() < INFINITY_BITS
    }

    /// Whether the pattern is one of the two zeros.
    pub open spec fn is_zero(self) -> bool {
        self.magnitude() == 0
    }

    /// The place of the pattern in the order of the numbers: the magnitude,
    /// counted downwards from zero where the sign bit is set. Both zeros
    /// have rank 0. Only meaningful where the pattern is not a NaN.
    pub open spec fn rank(self) -> int {
        if self.sign_negative() {
            -(self.magnitude() as int)
        } else {
            self.magnitude() as int
        }
    }

    /// The biased exponent field.
    pub open spec fn exponent(self) -> nat {
        self.magnitude() / (FRACTION_SPAN as nat)
    }

    /// The fraction field.
    pub open spec fn fraction(self) -> nat {
        self.magnitude() % (FRACTION_SPAN as nat)
    }

    /// The size of the encoded number in units of 2^-149, the smallest
    /// positive number of the format. An infinity counts as 2^277, which
    /// lies above every finite size.
    pub open spec fn units(self) -> nat {
        if self.exponent() == 0 {
            self.fraction()
        } else {
            (FRACTION_SPAN as nat + self.fraction()) * pow2((self.exponent() - 1) as nat)
        }
    }

    /// The encoded number in units of 2^-149, with its sign.
    pub open spec fn value(self) -> int {
        if self.sign_negative() {
            -(self.units() as int)
        } else {
            self.units() as int
        }
    }

    /// `self < other` as the format defines it: false where either is a NaN.
    pub open spec fn spec_lt(self, other: Scalar) -> bool {
        !self.is_nan() && !other.is_nan() && self.rank() < other.rank()
    }

    /// `self <= other` as the format defines it: false where either is a NaN.
    pub open spec fn spec_le(self, other: Scalar) -> bool {
        !self.is_nan() && !other.is_nan() && self.rank() <= other.rank()
    }

    /// `self > other` as the format defines it: false where either is a NaN.
    pub open spec fn spec_gt(self, other: Scalar) -> bool {
        other.spec_lt(self)
    }

    /// `self >= other` as the format defines it: false where either is a NaN.
    pub open spec fn spec_ge(self, other: Scalar) -> bool {
        other.spec_le(self)
    }

    /// `self == other` as the format defines it: the two zeros are equal,
    /// and a NaN equals nothing.
    pub open spec fn spec_same(self, other: Scalar) -> bool {
        !self.is_nan() && !other.is_nan() && self.rank() == other.rank()
    }

    /// The pattern with the sign bit flipped.
    pub open spec fn spec_neg(self) -> Scalar {
        if self.bits >= SIGN_BIT {
            Scalar { bits: (self.bits - SIGN_BIT) as u32 }
        } else {
            Scalar { bits: (self.bits + SIGN_BIT) as u32 }
        }
    }

    /// The pattern with the sign bit cleared.
    pub open spec fn spec_abs(self) -> Scalar {
        Scalar { bits: self.magnitude() as u32 }
    }

    /// The lesser of two numbers. A NaN gives way to the other argument;
    /// of two equal numbers the first is taken.
    pub open spec fn spec_min(self, other: Scalar) -> Scalar {
        if self.is_nan() {
            other
        } else if other.spec_lt(self) {
            other
        } else {
            self
        }
    }

    /// The greater of two numbers. A NaN gives way to the other argument;
    /// of two equal numbers the first is taken.
    pub open spec fn spec_max(self, other: Scalar) -> Scalar {
        if self.is_nan() {
            other
        } else if self.spec_lt(other) {
            other
        } else {
            self
        }
    }

    /// `self` moved into the interval from `lo` to `hi`. A NaN stays.
    pub open spec fn spec_clamp(self, lo: Scalar, hi: Scalar) -> Scalar {
        if self.spec_lt(lo) {
            lo
        } else if hi.spec_lt(self) {
            hi
        } else {
            self
        }
    }

    /// Wraps a bit pattern.
    pub fn from_bits(bits: u32) -> (r: Scalar)
        ensures
            r.bits == bits,
    {
        Scalar { bits }
    }

    /// The bit pattern.
    pub fn to_bits(self) -> (r: u32)
        ensures
            r == self.bits,
    {
        self.bits
    }

    /// The number zero, with a clear sign bit.
    pub fn zero() -> (r: Scalar)
        ensures
            r.bits == ZERO_BITS,
            r.rank() == 0,
            !r.is_nan(),
    {
        Scalar { bits: ZERO_BITS }
    }

    /// The number one.
    pub fn one() -> (r: Scalar)
        ensures
            r.bits == ONE_BITS,
            !r.is_nan(),
            r.rank() == ONE_BITS,
    {
        Scalar { bits: ONE_BITS }
    }

    fn magnitude_bits(self) -> (m: u32)
        ensures
            m == self.magnitude(),
            m < SIGN_BIT,
    {
        if self.bits >= SIGN_BIT {
            self.bits - SIGN_BIT
        } else {
            self.bits
        }
    }

    fn rank_of(self) -> (r: i64)
        ensures
            r == self.rank(),
    {
        let m: i64 = self.magnitude_bits() as i64;
        if self.bits >= SIGN_BIT {
            -m
        } else {
            m
        }
    }

    /// Whether the pattern encodes no number.
    pub fn nan(self) -> (r: bool)
        ensures
            r == self.is_nan(),
    {
        self.magnitude_bits() > INFINITY_BITS
    }

    /// `self < other`.
    pub fn lt(self, other: Scalar) -> (r: bool)
        ensures
            r == self.spec_lt(other),
    {
        !self.nan() && !other.nan() && self.rank_of() < other.rank_of()
    }

    /// `self <= other`.
    pub fn le(self, other: Scalar) -> (r: bool)
        ensures
            r == self.spec_le(other),
    {
        !self.nan() && !other.nan() && self.rank_of() <= other.rank_of()
    }

    /// `self > other`.
    pub fn gt(self, other: Scalar) -> (r: bool)
        ensures
            r == self.spec_gt(other),
    {
        other.lt(self)
    }

    /// `self >= other`.
    pub fn ge(self, other: Scalar) -> (r: bool)
        ensures
            r == self.spec_ge(other),
    {
        other.le(self)
    }

    /// `self == other` as numbers.
    pub fn same(self, other: Scalar) -> (r: bool)
        ensures
            r == self.spec_same(other),
    {
        !self.nan() && !other.nan() && self.rank_of() == other.rank_of()
    }

    /// The number with the opposite sign.
    pub fn neg(self) -> (r: Scalar)
        ensures
            r == self.spec_neg(),
            r.magnitude() == self.magnitude(),
            r.sign_negative() == !self.sign_negative(),
            r.is_nan() == self.is_nan(),
            r.rank() == -self.rank(),
    {
        if self.bits >= SIGN_BIT {
            Scalar { bits: self.bits - SIGN_BIT }
        } else {
            Scalar { bits: self.bits + SIGN_BIT }
        }
    }

    /// The number without its sign.
    pub fn abs(self) -> (r: Scalar)
        ensures
            r == self.spec_abs(),
            r.magnitude() == self.magnitude(),
            !r.sign_negative(),
            r.is_nan() == self.is_nan(),
            r.rank() == self.magnitude(),
    {
        Scalar { bits: self.magnitude_bits() }
    }

    /// The lesser of `self` and `other`.
    pub fn min(self, other: Scalar) -> (r: Scalar)
        ensures
            r == self.spec_min(other),
            r == self || r == other,
            !self.is_nan() && !other.is_nan() ==> !r.is_nan() && r.rank() <= self.rank() && r.rank()
                <= other.rank(),
    {
        if self.nan() {
            other
        } else if other.lt(self) {
            other
        } else {
            self
        }
    }

    /// The greater of `self` and `other`.
    pub fn max(self, other: Scalar) -> (r: Scalar)
        ensures
            r == self.spec_max(other),
            r == self || r == other,
            !self.is_nan() && !other.is_nan() ==> !r.is_nan() && r.rank() >= self.rank() && r.rank()
                >= other.rank(),
    {
        if self.nan() {
            other
        } else if self.lt(other) {
            other
        } else {
            self
        }
    }

    /// `self` moved into the interval from `lo` to `hi`.
    pub fn clamp(self, lo: Scalar, hi: Scalar) -> (r: Scalar)
        requires
            lo.spec_le(hi),
        ensures
            r == self.spec_clamp(lo, hi),
            self.is_nan() ==> r == self,
            !self.is_nan() ==> !r.is_nan() && lo.rank() <= r.rank() <= hi.rank(),
            !self.is_nan() && lo.rank() <= self.rank() <= hi.rank() ==> r == self,
    {
        if self.lt(lo) {
            lo
        } else if hi.lt(self) {
            hi
        } else {
            self
        }
    }
}

/// Among patterns with a clear sign bit, a larger pattern encodes a larger size.
pub proof fn lemma_units_increase(a: Scalar, b: Scalar)
    requires
        a.magnitude() < b.magnitude(),
    ensures
        a.units() < b.units(),
{
    let k = FRACTION_SPAN as nat;
    let (ea, fa) = (a.exponent(), a.fraction());
    let (eb, fb) = (b.exponent(), b.fraction());
    assert(a.magnitude() == ea * k + fa && fa < k);
    assert(b.magnitude() == eb * k + fb && fb < k);
    if ea == eb {
        if ea > 0 {
            let p = pow2((ea - 1) as nat);
            lemma_pow2_pos((ea - 1) as nat);
            assert((k + fa) * p < (k + fb) * p) by (nonlinear_arith)
                requires
                    fa < fb,
                    p > 0,
            ;
        }
    } else {
        assert(ea < eb) by (nonlinear_arith)
            requires
                ea * k + fa < eb * k + fb,
                fa < k,
                fb < k,
                ea != eb,
        ;
        let pb = pow2((eb - 1) as nat);
        lemma_pow2_pos((eb - 1) as nat);
        assert(k * pb <= (k + fb) * pb) by (nonlinear_arith)
            requires
                pb > 0,
        ;
        if ea == 0 {
            assert(k * 1 <= k * pb) by (nonlinear_arith)
                requires
                    pb >= 1,
            ;
        } else {
            let pa = pow2((ea - 1) as nat);
            lemma_pow2_pos((ea - 1) as nat);
            lemma_pow2_unfold(ea);
            assert((k + fa) * pa < k * (2 * pa)) by (nonlinear_arith)
                requires
                    fa < k,
                    pa > 0,
            ;
            if ea < eb - 1 {
                lemma_pow2_strictly_increases(ea, (eb - 1) as nat);
            }
            assert(k * pow2(ea) <= k * pb) by (nonlinear_arith)
                requires
                    pow2(ea) <= pb,
            ;
        }
    }
}

/// The order of the ranks is the order of the encoded numbers: of two
/// patterns that are not NaN, one has the lower rank exactly where it
/// encodes the lower number, and they share a rank exactly where they
/// encode the same number.
pub proof fn lemma_rank_orders_values(a: Scalar, b: Scalar)
    requires
        !a.is_nan(),
        !b.is_nan(),
    ensures
        a.rank() < b.rank() <==> a.value() < b.value(),
        a.rank() == b.rank() <==> a.value() == b.value(),
{
    if a.magnitude() < b.magnitude() {
        lemma_units_increase(a, b);
    } else if b.magnitude() < a.magnitude() {
        lemma_units_increase(b, a);
    }
    let zero = Scalar { bits: 0 };
    if a.magnitude() > 0 {
        lemma_units_increase(zero, a);
    }
    if b.magnitude() > 0 {
        lemma_units_increase(zero, b);
    }
    assert(zero.units() == 0);
}

} // verus!
