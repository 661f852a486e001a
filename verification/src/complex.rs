//! Complex samples: pairs of IEEE 754 doubles carried as bit patterns.
//!
//! The arithmetic mirrors the operator definitions of `num::complex` for
//! `Complex64` operand by operand — sums and differences are componentwise,
//! the product is `(a.re*b.re - a.im*b.im, a.re*b.im + a.im*b.re)`, the
//! squared magnitude is `re*re + im*im` and scaling multiplies each component
//! by the scalar — so a value computed here is bit-identical to one computed
//! through that crate.

use vstd::prelude::*;

use crate::double::Real;
use crate::double::r_add;
use crate::double::r_sub;
use crate::double::r_mul;

verus! {

/// A sample point of the complex plane: real and imaginary coordinates,
/// each an IEEE 754 double carried as its bit pattern.
#[derive(Clone, Copy, PartialEq, Eq, Structural, Debug)]
pub struct Complex {
    pub re: Real,
    pub im: Real,
}

/// The componentwise complex sum.
pub open spec fn c_add(a: Complex, b: Complex) -> Complex {
    Complex { re: r_add(a.re, b.re), im: r_add(a.im, b.im) }
}

/// The componentwise complex difference.
pub open spec fn c_sub(a: Complex, b: Complex) -> Complex {
    Complex { re: r_sub(a.re, b.re), im: r_sub(a.im, b.im) }
}

/// The complex product `(a.re*b.re - a.im*b.im, a.re*b.im + a.im*b.re)`.
pub open spec fn c_mul(a: Complex, b: Complex) -> Complex {
    Complex {
        re: r_sub(r_mul(a.re, b.re), r_mul(a.im, b.im)),
        im: r_add(r_mul(a.re, b.im), r_mul(a.im, b.re)),
    }
}

/// The squared magnitude `re*re + im*im`.
pub open spec fn c_norm_sqr(a: Complex) -> Real {
    r_add(r_mul(a.re, a.re), r_mul(a.im, a.im))
}

/// Each component multiplied by the scalar `t`.
pub open spec fn c_scale(a: Complex, t: Real) -> Complex {
    Complex { re: r_mul(a.re, t), im: r_mul(a.im, t) }
}

impl Complex {
    pub fn new(re: Real, im: Real) -> (r: Complex)
        ensures
            r.re == re,
            r.im == im,
    {
        Complex { re, im }
    }

    /// Build a sample from the two stored bit patterns.
    pub fn from_bits(re_bits: u64, im_bits: u64) -> (r: Complex)
        ensures
            r.re.bits == re_bits,
            r.im.bits == im_bits,
    {
        Complex { re: Real::from_bits(re_bits), im: Real::from_bits(im_bits) }
    }

    pub fn add(self, other: Complex) -> (r: Complex)
        ensures
            r == c_add(self, other),
    {
        Complex { re: self.re.add(other.re), im: self.im.add(other.im) }
    }

    pub fn sub(self, other: Complex) -> (r: Complex)
        ensures
            r == c_sub(self, other),
    {
        Complex { re: self.re.sub(other.re), im: self.im.sub(other.im) }
    }

    pub fn mul(self, other: Complex) -> (r: Complex)
        ensures
            r == c_mul(self, other),
    {
        Complex {
            re: self.re.mul(other.re).sub(self.im.mul(other.im)),
            im: self.re.mul(other.im).add(self.im.mul(other.re)),
        }
    }

    /// The squared magnitude of the sample, used by the divergence test.
    pub fn norm_sqr(self) -> (r: Real)
        ensures
            r == c_norm_sqr(self),
    {
        self.re.mul(self.re).add(self.im.mul(self.im))
    }

    /// Multiply both components by the scalar `t`.
    pub fn scale(self, t: Real) -> (r: Complex)
        ensures
            r == c_scale(self, t),
    {
        Complex { re: self.re.mul(t), im: self.im.mul(t) }
    }
}

} // verus!
