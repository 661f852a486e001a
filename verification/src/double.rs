//! Real numbers, carried as the bit pattern of an IEEE 754 double.
//!
//! Every arithmetic operation is performed by the hardware's double-precision
//! unit, reached through `num::complex::Complex64` so that the operands can be
//! rebuilt from their stored bit patterns. IEEE 754 arithmetic is a
//! deterministic function of the operands' bit patterns, so each operation is
//! named by an uninterpreted spec function over the raw bits: two equal inputs
//! always produce the same output, which is all the escape-time logic needs.
//!
//! Equality of `Real` values is equality of representations (bit patterns),
//! not the numeric `==` of doubles.

use vstd::prelude::*;

verus! {

/// A real number, stored as the bit pattern of an IEEE 754 double.
#[derive(Clone, Copy, PartialEq, Eq, Structural, Debug)]
pub struct Real {
    pub bits: u64,
}

/// Bit pattern of the IEEE 754 double sum `a + b`.
pub uninterp spec fn add_bits(a: u64, b: u64) -> u64;

/// Bit pattern of the IEEE 754 double difference `a - b`.
pub uninterp spec fn sub_bits(a: u64, b: u64) -> u64;

/// Bit pattern of the IEEE 754 double product `a * b`.
pub uninterp spec fn mul_bits(a: u64, b: u64) -> u64;

/// Bit pattern of the IEEE 754 double quotient `a / b`.
pub uninterp spec fn div_bits(a: u64, b: u64) -> u64;

/// Whether the IEEE 754 double comparison `a < b` holds.
pub uninterp spec fn lt_bits(a: u64, b: u64) -> bool;

/// Bit pattern of the IEEE 754 double nearest to the integer `x`
/// (exact, since every `u32` is representable in a double).
pub uninterp spec fn u32_bits(x: u32) -> u64;

/// Bit pattern of the IEEE 754 double nearest to the integer `n`
/// (round to nearest, ties to even, as the numeric cast rounds).
pub uninterp spec fn usize_bits(n: usize) -> u64;

pub open spec fn r_add(a: Real, b: Real) -> Real {
    Real { bits: add_bits(a.bits, b.bits) }
}

pub open spec fn r_sub(a: Real, b: Real) -> Real {
    Real { bits: sub_bits(a.bits, b.bits) }
}

pub open spec fn r_mul(a: Real, b: Real) -> Real {
    Real { bits: mul_bits(a.bits, b.bits) }
}

pub open spec fn r_div(a: Real, b: Real) -> Real {
    Real { bits: div_bits(a.bits, b.bits) }
}

pub open spec fn r_lt(a: Real, b: Real) -> bool {
    lt_bits(a.bits, b.bits)
}

pub open spec fn r_from_u32(x: u32) -> Real {
    Real { bits: u32_bits(x) }
}

pub open spec fn r_from_usize(n: usize) -> Real {
    Real { bits: usize_bits(n) }
}

impl Real {
    /// Wrap a stored bit pattern back up as a `Real`.
    pub fn from_bits(bits: u64) -> (r: Real)
        ensures
            r.bits == bits,
    {
        Real { bits }
    }

    /// Relies on the primitive `+` of IEEE 754 doubles: a deterministic
    /// function of the operands' bit patterns. `Complex64::new` rebuilds the
    /// doubles from the stored bits.
    #[verifier::external_body]
    pub fn add(self, other: Real) -> (r: Real)
        ensures
            r.bits == add_bits(self.bits, other.bits),
            r == r_add(self, other),
    {
        let z = num::complex::Complex64::new(
            num::traits::FromBytes::from_le_bytes(&self.bits.to_le_bytes()),
            num::traits::FromBytes::from_le_bytes(&other.bits.to_le_bytes()),
        );
        Real { bits: (z.re + z.im).to_bits() }
    }

    /// Relies on the primitive `-` of IEEE 754 doubles: a deterministic
    /// function of the operands' bit patterns.
    #[verifier::external_body]
    pub fn sub(self, other: Real) -> (r: Real)
        ensures
            r.bits == sub_bits(self.bits, other.bits),
            r == r_sub(self, other),
    {
        let z = num::complex::Complex64::new(
            num::traits::FromBytes::from_le_bytes(&self.bits.to_le_bytes()),
            num::traits::FromBytes::from_le_bytes(&other.bits.to_le_bytes()),
        );
        Real { bits: (z.re - z.im).to_bits() }
    }

    /// Relies on the primitive `*` of IEEE 754 doubles: a deterministic
    /// function of the operands' bit patterns.
    #[verifier::external_body]
    pub fn mul(self, other: Real) -> (r: Real)
        ensures
            r.bits == mul_bits(self.bits, other.bits),
            r == r_mul(self, other),
    {
        let z = num::complex::Complex64::new(
            num::traits::FromBytes::from_le_bytes(&self.bits.to_le_bytes()),
            num::traits::FromBytes::from_le_bytes(&other.bits.to_le_bytes()),
        );
        Real { bits: (z.re * z.im).to_bits() }
    }

    /// Relies on the primitive `/` of IEEE 754 doubles: a deterministic,
    /// total function of the operands' bit patterns (a zero divisor yields
    /// an infinity or NaN, never a panic).
    #[verifier::external_body]
    pub fn div(self, other: Real) -> (r: Real)
        ensures
            r.bits == div_bits(self.bits, other.bits),
            r == r_div(self, other),
    {
        let z = num::complex::Complex64::new(
            num::traits::FromBytes::from_le_bytes(&self.bits.to_le_bytes()),
            num::traits::FromBytes::from_le_bytes(&other.bits.to_le_bytes()),
        );
        Real { bits: (z.re / z.im).to_bits() }
    }

    /// Relies on the primitive `<` of IEEE 754 doubles: a deterministic
    /// function of the operands' bit patterns.
    #[verifier::external_body]
    pub fn lt(self, other: Real) -> (r: bool)
        ensures
            r == lt_bits(self.bits, other.bits),
            r == r_lt(self, other),
    {
        let z = num::complex::Complex64::new(
            num::traits::FromBytes::from_le_bytes(&self.bits.to_le_bytes()),
            num::traits::FromBytes::from_le_bytes(&other.bits.to_le_bytes()),
        );
        z.re < z.im
    }

    /// Relies on `From<u32>` for IEEE 754 doubles: the conversion is exact
    /// and a deterministic function of the integer.
    #[verifier::external_body]
    pub fn from_u32(x: u32) -> (r: Real)
        ensures
            r.bits == u32_bits(x),
            r == r_from_u32(x),
    {
        let z = num::complex::Complex64::new(x.into(), x.into());
        Real { bits: z.re.to_bits() }
    }

    /// Relies on `str::parse` for IEEE 754 doubles: decimal-to-double
    /// conversion is correctly rounded (nearest, ties to even), so parsing
    /// the decimal digits of `n` equals the numeric cast of `n`; it never
    /// fails on a string of digits.
    #[verifier::external_body]
    pub fn from_usize(n: usize) -> (r: Real)
        ensures
            r.bits == usize_bits(n),
            r == r_from_usize(n),
    {
        let s = format!("{}", n);
        let z = num::complex::Complex64::new(s.parse().unwrap(), s.parse().unwrap());
        Real { bits: z.re.to_bits() }
    }
}

} // verus!
