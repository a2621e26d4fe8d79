//! Lua numbers as IEEE-754 binary64 bit patterns, and their exact
//! conversion to integers.
//!
//! A number converts to an integer only when it *is* that integer. The
//! conversions work on the bit pattern; [`Number::denotes`] says in plain
//! arithmetic which integer a pattern stands for, and the conversions are
//! proved to agree with it.
use vstd::prelude::*;
use vstd::arithmetic::power2::{pow2, lemma_pow2_pos, lemma_pow2_strictly_increases, lemma2_to64, lemma2_to64_rest};
use vstd::arithmetic::div_mod::{lemma_fundamental_div_mod, lemma_mod_multiples_basic};
use vstd::bits::{low_bits_mask, lemma_u64_shr_is_div, lemma_u64_shl_is_mul, lemma_u64_low_bits_mask_is_mod, lemma_u64_pow2_no_overflow};

verus! {

/// Mask of the 52 fraction bits.
pub const FRACTION_MASK: u64 = 0x000f_ffff_ffff_ffff;

/// The implicit leading bit of a normal significand.
pub const HIDDEN_BIT: u64 = 0x0010_0000_0000_0000;

/// Mask of everything but the sign bit.
pub const MAGNITUDE_MASK: u64 = 0x7fff_ffff_ffff_ffff;

/// Biased exponent of the values in `[1, 2)`.
pub const EXPONENT_BIAS: u64 = 1023;

/// Biased exponent at which the significand is a whole number as it stands.
pub const EXPONENT_WHOLE: u64 = 1075;

/// Biased exponent of the values in `[2^63, 2^64)`, the largest whose
/// magnitude fits 64 bits.
pub const EXPONENT_TOP: u64 = 1086;

/// A Lua number, held as the bit pattern of its binary64 encoding: one sign
/// bit, eleven exponent bits, fifty-two fraction bits.
#[derive(Clone, Copy, Debug, PartialEq, Eq, Structural)]
pub struct Number {
    pub bits: u64,
}

impl Number {
    /// The sign bit is set.
    pub open spec fn negative(self) -> bool {
        self.bits >> 63 == 1
    }

    /// The biased exponent field.
    pub open spec fn exponent(self) -> u64 {
        (self.bits >> 52) & 0x7ff
    }

    /// The fraction field.
    pub open spec fn fraction(self) -> u64 {
        self.bits & FRACTION_MASK
    }

    /// The significand of a normal number: the fraction under its hidden bit.
    pub open spec fn significand(self) -> u64 {
        self.fraction() | HIDDEN_BIT
    }

    /// Positive or negative zero.
    pub open spec fn is_zero(self) -> bool {
        self.bits & MAGNITUDE_MASK == 0
    }

    /// Neither an infinity nor NaN.
    pub open spec fn finite(self) -> bool {
        self.exponent() != 0x7ff
    }

    /// The magnitude of the number is exactly the natural number `n`.
    ///
    /// With a zero exponent field the magnitude is `fraction * 2^-1074`,
    /// which is whole only when it is zero. Otherwise the magnitude of a
    /// finite number is `significand * 2^(exponent - 1075)`.
    pub open spec fn magnitude_is(self, n: nat) -> bool {
        if self.exponent() == 0 {
            self.fraction() == 0 && n == 0
        } else if self.exponent() >= EXPONENT_WHOLE {
            self.finite() && n == self.significand() * pow2(
                (self.exponent() - EXPONENT_WHOLE) as nat,
            )
        } else {
            n * pow2((EXPONENT_WHOLE - self.exponent()) as nat) == self.significand()
        }
    }

    /// The number is exactly the integer `i`: its magnitude is that of `i`
    /// and, unless both are zero, so is its sign.
    pub open spec fn denotes(self, i: int) -> bool {
        &&& self.magnitude_is((if i < 0 { -i } else { i }) as nat)
        &&& i > 0 ==> !self.negative()
        &&& i < 0 ==> self.negative()
    }

    /// How far the significand has to be shifted right to give the whole part.
    pub open spec fn whole_shift(self) -> u64
        recommends
            self.exponent() <= EXPONENT_WHOLE,
    {
        (EXPONENT_WHOLE - self.exponent()) as u64
    }

    /// The significand bits that lie below the binary point.
    pub open spec fn below_point(self) -> u64
        recommends
            EXPONENT_BIAS <= self.exponent() <= EXPONENT_WHOLE,
    {
        self.significand() & (((1u64 << self.whole_shift()) - 1) as u64)
    }

    /// The number is finite, not zero and not whole: its magnitude is below
    /// one, or a significand bit lies below the binary point.
    pub open spec fn has_fraction(self) -> bool {
        !self.is_zero() && (self.exponent() < EXPONENT_BIAS || (self.exponent() <= EXPONENT_WHOLE
            && self.below_point() != 0))
    }

    /// The magnitude of the number, where it is whole and below `2^64`.
    ///
    /// Zero of either sign has magnitude `0`. Below one, and from `2^64` on
    /// (infinities and NaN included), there is none. Between them the
    /// significand is shifted to where the exponent puts it, and there is
    /// none if a set bit would fall below the binary point.
    pub open spec fn whole_magnitude(self) -> Option<u64> {
        if self.is_zero() {
            Some(0u64)
        } else if self.exponent() < EXPONENT_BIAS || self.exponent() > EXPONENT_TOP {
            None
        } else if self.exponent() > EXPONENT_WHOLE {
            Some(self.significand() << ((self.exponent() - EXPONENT_WHOLE) as u64))
        } else if self.below_point() != 0 {
            None
        } else {
            Some(self.significand() >> self.whole_shift())
        }
    }

    /// The unsigned 32-bit integer that the number is, if it is one.
    pub open spec fn unsigned_value(self) -> Option<u32> {
        if exists|n: u32| self.denotes(n as int) {
            Some(choose|n: u32| self.denotes(n as int))
        } else {
            None
        }
    }

    /// The signed 64-bit integer that the number is, if it is one.
    pub open spec fn integer_value(self) -> Option<i64> {
        if exists|i: i64| self.denotes(i as int) {
            Some(choose|i: i64| self.denotes(i as int))
        } else {
            None
        }
    }

    /// How the bits give the number as an unsigned 32-bit integer: its whole
    /// magnitude, where that fits and the number is not below zero.
    pub open spec fn unsigned_by_bits(self) -> Option<u32> {
        match self.whole_magnitude() {
            Some(m) => if m <= u32::MAX && (m == 0 || !self.negative()) {
                Some(m as u32)
            } else {
                None
            },
            None => None,
        }
    }

    /// How the bits give the number as a signed 64-bit integer: its whole
    /// magnitude under its sign, where that fits.
    pub open spec fn integer_by_bits(self) -> Option<i64> {
        match self.whole_magnitude() {
            Some(m) => if self.negative() {
                if m <= 0x8000_0000_0000_0000 {
                    Some((-(m as int)) as i64)
                } else {
                    None
                }
            } else if m <= i64::MAX {
                Some(m as i64)
            } else {
                None
            },
            None => None,
        }
    }

    /// Wraps a bit pattern.
    pub fn from_bits(bits: u64) -> (r: Number)
        ensures
            r.bits == bits,
    {
        Number { bits }
    }

    /// The bit pattern.
    pub fn to_bits(self) -> (r: u64)
        ensures
            r == self.bits,
    {
        self.bits
    }

    /// The magnitude of the number as a whole number below `2^64`.
    ///
    /// What comes back is the magnitude exactly; nothing comes back exactly
    /// when the magnitude is no natural number below `2^64`.
    pub fn magnitude(self) -> (r: Option<u64>)
        ensures
            r == self.whole_magnitude(),
            r matches Some(m) ==> self.magnitude_is(m as nat),
            r is None ==> forall|n: nat| n <= u64::MAX ==> !self.magnitude_is(n),
    {
        proof {
            self.lemma_whole_magnitude_is_exact();
        }
        let bits: u64 = self.bits;
        if bits & MAGNITUDE_MASK == 0 {
            return Some(0u64);
        }
        let exponent: u64 = (bits >> 52) & 0x7ff;
        if exponent < EXPONENT_BIAS || exponent > EXPONENT_TOP {
            return None;
        }
        let significand: u64 = (bits & FRACTION_MASK) | HIDDEN_BIT;
        if exponent > EXPONENT_WHOLE {
            let shift: u64 = exponent - EXPONENT_WHOLE;
            return Some(significand << shift);
        }
        let shift: u64 = EXPONENT_WHOLE - exponent;
        assert((1u64 << shift) >= 1) by (bit_vector)
            requires
                shift <= 52,
        ;
        let low: u64 = (1u64 << shift) - 1;
        if significand & low != 0 {
            return None;
        }
        Some(significand >> shift)
    }

    /// Converts to an unsigned 32-bit integer when that loses nothing: an
    /// integer comes back exactly when the number is that integer.
    pub fn as_unsigned(self) -> (r: Option<u32>)
        ensures
            r == self.unsigned_value(),
            forall|n: u32| r == Some(n) <==> self.denotes(n as int),
    {
        proof {
            self.lemma_unsigned_by_bits_is_exact();
        }
        let negative: bool = self.bits >> 63 == 1;
        match self.magnitude() {
            Some(m) => {
                if m <= 0xffff_ffff && (m == 0 || !negative) {
                    Some(m as u32)
                } else {
                    None
                }
            },
            None => None,
        }
    }

    /// Converts to a signed 64-bit integer when that loses nothing: an
    /// integer comes back exactly when the number is that integer.
    pub fn as_integer(self) -> (r: Option<i64>)
        ensures
            r == self.integer_value(),
            forall|i: i64| r == Some(i) <==> self.denotes(i as int),
    {
        proof {
            self.lemma_integer_by_bits_is_exact();
        }
        let negative: bool = self.bits >> 63 == 1;
        match self.magnitude() {
            Some(m) => {
                if negative {
                    if m == 0x8000_0000_0000_0000 {
                        Some(i64::MIN)
                    } else if m < 0x8000_0000_0000_0000 {
                        Some(-(m as i64))
                    } else {
                        None
                    }
                } else if m <= 0x7fff_ffff_ffff_ffff {
                    Some(m as i64)
                } else {
                    None
                }
            },
            None => None,
        }
    }

    /// The magnitude that the bits give is the magnitude of the number, and
    /// where they give none the number has no whole magnitude below `2^64`.
    pub proof fn lemma_whole_magnitude_is_exact(self)
        ensures
            match self.whole_magnitude() {
                Some(m) => self.magnitude_is(m as nat),
                None => forall|n: nat| n <= u64::MAX ==> !self.magnitude_is(n),
            },
    {
        let bits = self.bits;
        let e = self.exponent();
        let sig = self.significand();
        assert((bits & 0x7fff_ffff_ffff_ffff == 0) <==> (((bits >> 52) & 0x7ff) == 0 && (bits
            & 0x000f_ffff_ffff_ffff) == 0)) by (bit_vector);
        assert(0x0010_0000_0000_0000 <= ((bits & 0x000f_ffff_ffff_ffff) | 0x0010_0000_0000_0000)
            < 0x0020_0000_0000_0000) by (bit_vector);
        assert(((bits >> 52) & 0x7ff) <= 0x7ff) by (bit_vector);
        lemma2_to64();
        lemma2_to64_rest();
        if self.is_zero() || e == 0 || e == 0x7ff {
        } else if e < EXPONENT_BIAS {
            let k = (EXPONENT_WHOLE - e) as nat;
            let p = pow2(k);
            if k > 53 {
                lemma_pow2_strictly_increases(53, k);
            }
            assert forall|n: nat| n <= u64::MAX implies !self.magnitude_is(n) by {
                if n >= 1 {
                    assert(n * p >= p) by (nonlinear_arith)
                        requires
                            n >= 1,
                            p >= 0,
                    ;
                }
            }
        } else if e > EXPONENT_TOP {
            let k = (e - EXPONENT_WHOLE) as nat;
            let p = pow2(k);
            if k > 12 {
                lemma_pow2_strictly_increases(12, k);
            }
            assert(sig * p >= 0x0010_0000_0000_0000 * 0x1000) by (nonlinear_arith)
                requires
                    p >= 0x1000,
                    sig >= 0x0010_0000_0000_0000,
            ;
        } else if e > EXPONENT_WHOLE {
            let shift = (e - EXPONENT_WHOLE) as u64;
            let k = shift as nat;
            let p = pow2(k);
            if k < 11 {
                lemma_pow2_strictly_increases(k, 11);
            }
            lemma_pow2_pos(k);
            assert(sig * p <= 0x001f_ffff_ffff_ffff * 0x800) by (nonlinear_arith)
                requires
                    0 <= p <= 0x800,
                    sig <= 0x001f_ffff_ffff_ffff,
            ;
            lemma_u64_shl_is_mul(sig, shift);
        } else {
            let shift = self.whole_shift();
            let k = shift as nat;
            let p = pow2(k);
            assert(shift <= 52);
            lemma_u64_pow2_no_overflow(k);
            assert(1 * p == p);
            lemma_u64_shl_is_mul(1, shift);
            assert((1u64 << shift) == p);
            assert((((1u64 << shift) - 1) as u64) == low_bits_mask(k) as u64);
            lemma_u64_low_bits_mask_is_mod(sig, k);
            assert(self.below_point() == sig % (p as u64));
            if self.below_point() != 0 {
                assert(e < EXPONENT_WHOLE);
                assert forall|n: nat| n <= u64::MAX implies !self.magnitude_is(n) by {
                    lemma_mod_multiples_basic(n as int, p as int);
                }
            } else {
                let whole = sig >> shift;
                lemma_u64_shr_is_div(sig, shift);
                lemma_fundamental_div_mod(sig as int, p as int);
                assert(p * (sig as int / p as int) == (sig as int / p as int) * p)
                    by (nonlinear_arith);
                assert(whole * p == sig);
                if e == EXPONENT_WHOLE {
                    assert(p == 1);
                    assert(pow2((e - EXPONENT_WHOLE) as nat) == 1);
                    assert(sig * pow2((e - EXPONENT_WHOLE) as nat) == sig) by (nonlinear_arith)
                        requires
                            pow2((e - EXPONENT_WHOLE) as nat) == 1,
                    ;
                }
            }
        }
    }

    /// A number has at most one whole magnitude.
    pub proof fn lemma_magnitude_is_unique(self, a: nat, b: nat)
        requires
            self.magnitude_is(a),
            self.magnitude_is(b),
        ensures
            a == b,
    {
        if 0 < self.exponent() < EXPONENT_WHOLE {
            let p = pow2((EXPONENT_WHOLE - self.exponent()) as nat);
            lemma_pow2_pos((EXPONENT_WHOLE - self.exponent()) as nat);
            assert(a == b) by (nonlinear_arith)
                requires
                    a * p == b * p,
                    p > 0,
            ;
        }
    }

    /// Reading the unsigned integer off the bits is exact and complete: the
    /// bits give `n` exactly when the number is `n`.
    pub proof fn lemma_unsigned_by_bits_is_exact(self)
        ensures
            forall|n: u32| self.unsigned_by_bits() == Some(n) <==> self.denotes(n as int),
            self.unsigned_by_bits() == self.unsigned_value(),
    {
        self.lemma_whole_magnitude_is_exact();
        assert forall|n: u32| self.unsigned_by_bits() == Some(n) <==> self.denotes(n as int) by {
            if let Some(m) = self.whole_magnitude() {
                if self.magnitude_is(n as nat) {
                    self.lemma_magnitude_is_unique(n as nat, m as nat);
                }
            }
        }
        match self.unsigned_by_bits() {
            Some(n) => {
                assert(self.denotes(n as int));
                let value = self.unsigned_value().unwrap();
                self.lemma_denotes_is_unique(n as int, value as int);
            },
            None => {
                assert forall|n: u32| !self.denotes(n as int) by {
                    assert(self.unsigned_by_bits() == Some(n) <==> self.denotes(n as int));
                }
            },
        }
    }

    /// Reading the signed integer off the bits is exact and complete: the
    /// bits give `i` exactly when the number is `i`.
    pub proof fn lemma_integer_by_bits_is_exact(self)
        ensures
            forall|i: i64| self.integer_by_bits() == Some(i) <==> self.denotes(i as int),
            self.integer_by_bits() == self.integer_value(),
    {
        self.lemma_integer_by_bits_gives_what_is_denoted();
        match self.integer_by_bits() {
            Some(i) => {
                assert(self.denotes(i as int));
                let value = self.integer_value().unwrap();
                self.lemma_denotes_is_unique(i as int, value as int);
            },
            None => {
                assert forall|i: i64| !self.denotes(i as int) by {
                    assert(self.integer_by_bits() == Some(i) <==> self.denotes(i as int));
                }
            },
        }
    }

    /// The bits give `i` exactly when the number is `i`.
    proof fn lemma_integer_by_bits_gives_what_is_denoted(self)
        ensures
            forall|i: i64| self.integer_by_bits() == Some(i) <==> self.denotes(i as int),
    {
        self.lemma_whole_magnitude_is_exact();
        self.lemma_only_zero_has_no_magnitude();
        assert forall|i: i64| self.integer_by_bits() == Some(i) <==> self.denotes(i as int) by {
            let a = (if i < 0 { -i } else { i as int }) as nat;
            if let Some(m) = self.whole_magnitude() {
                if self.magnitude_is(a) {
                    self.lemma_magnitude_is_unique(a, m as nat);
                }
            }
        }
    }

    /// Only zero has magnitude zero, and zero has it.
    pub proof fn lemma_only_zero_has_no_magnitude(self)
        ensures
            self.magnitude_is(0) ==> self.is_zero(),
            self.is_zero() ==> self.whole_magnitude() == Some(0u64),
    {
        let bits = self.bits;
        assert((bits & 0x7fff_ffff_ffff_ffff == 0) <==> (((bits >> 52) & 0x7ff) == 0 && (bits
            & 0x000f_ffff_ffff_ffff) == 0)) by (bit_vector);
        assert(0x0010_0000_0000_0000 <= ((bits & 0x000f_ffff_ffff_ffff) | 0x0010_0000_0000_0000))
            by (bit_vector);
        if self.exponent() != 0 {
            if self.exponent() >= EXPONENT_WHOLE {
                let p = pow2((self.exponent() - EXPONENT_WHOLE) as nat);
                lemma_pow2_pos((self.exponent() - EXPONENT_WHOLE) as nat);
                assert(self.significand() * p > 0) by (nonlinear_arith)
                    requires
                        self.significand() > 0,
                        p > 0,
                ;
            }
        }
    }

    /// A number is at most one integer.
    pub proof fn lemma_denotes_is_unique(self, i: int, j: int)
        requires
            self.denotes(i),
            self.denotes(j),
        ensures
            i == j,
    {
        self.lemma_magnitude_is_unique(
            (if i < 0 { -i } else { i }) as nat,
            (if j < 0 { -j } else { j }) as nat,
        );
    }

    /// A number with a fractional part is no 64-bit integer.
    pub proof fn lemma_fraction_is_no_integer(self)
        requires
            self.has_fraction(),
        ensures
            self.integer_value() is None,
            forall|i: i64| !self.denotes(i as int),
    {
        self.lemma_integer_by_bits_is_exact();
    }

    /// A number below zero, or one with a fractional part, is no unsigned
    /// integer.
    pub proof fn lemma_lossy_is_no_unsigned_integer(self)
        requires
            !self.is_zero(),
            self.negative() || self.has_fraction(),
        ensures
            self.unsigned_value() is None,
            forall|n: u32| !self.denotes(n as int),
    {
        self.lemma_whole_magnitude_is_exact();
        self.lemma_only_zero_has_no_magnitude();
        self.lemma_unsigned_by_bits_is_exact();
    }
}

} // verus!
