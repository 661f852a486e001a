//! Linear interpolation / extrapolation.
//!
//! Types amenable to lerping implement `Lerp`; the crate provides it for
//! real and complex samples. The interpolation parameter is a real: at 0 the
//! result equals the start, at 1 it equals the other end, elsewhere it is a
//! proportional mix, computed as `self + (other - self) * t`.

use vstd::prelude::*;

use crate::complex::Complex;
use crate::complex::c_add;
use crate::complex::c_scale;
use crate::complex::c_sub;
use crate::double::Real;
use crate::double::r_add;
use crate::double::r_div;
use crate::double::r_mul;
use crate::double::r_sub;
use crate::double::r_from_usize;

verus! {

/// Types which are amenable to linear inter/extrapolation: complex samples,
/// reals, and other values that can be scaled while retaining their type.
pub trait Lerp: Sized + Copy {
    /// The mix of `self` and `other` at parameter `t`.
    spec fn lerp_spec(self, other: Self, t: Real) -> Self;

    /// Interpolate / extrapolate between `self` and `other` using `t` as
    /// the parameter.
    fn lerp(self, other: Self, t: Real) -> (r: Self)
        ensures
            r == self.lerp_spec(other, t),
    ;

    /// Create an iterator which lerps from `self` to `other`. It is
    /// half-open: it includes `self`, but not `other`.
    fn lerp_iter(self, other: Self, steps: usize) -> (r: LerpIterator<Self>)
        ensures
            r.begin == self,
            r.end == other,
            r.steps == steps,
            r.current_step == 0,
    ;

}

/// The closed interpolation from `begin` to `end`, ending on `end` exactly;
/// one fewer intermediate step is consumed and the leading item is dropped
/// in exchange for the appended endpoint.
pub fn lerp_iter_closed<T: Lerp>(begin: T, end: T, steps: usize) -> (r: Vec<T>)
    ensures
        r@ == lerp_closed_spec(begin, end, steps),
{
    let inner: usize = if steps > 0 {
        steps - 1
    } else {
        0
    };
    let mut items: Vec<T> = Vec::new();
    let mut k: usize = 0;
    while k < inner
        invariant
            k <= inner,
            items@.len() == k as nat,
            forall|j: int|
                0 <= j < k ==> items@[j] == begin.lerp_spec(end, step_fraction(j as usize, inner)),
        decreases inner - k,
    {
        let t = Real::from_usize(k).div(Real::from_usize(inner));
        items.push(begin.lerp(end, t));
        k = k + 1;
    }
    items.push(end);
    if steps > 0 {
        items.remove(0);
    }
    proof {
        assert(items@ =~= lerp_closed_spec(begin, end, steps));
    }
    items
}

impl Lerp for Real {
    open spec fn lerp_spec(self, other: Real, t: Real) -> Real {
        r_add(self, r_mul(r_sub(other, self), t))
    }

    fn lerp(self, other: Real, t: Real) -> (r: Real) {
        self.add(other.sub(self).mul(t))
    }

    fn lerp_iter(self, other: Real, steps: usize) -> (r: LerpIterator<Real>) {
        LerpIterator::new(self, other, steps)
    }
}

impl Lerp for Complex {
    open spec fn lerp_spec(self, other: Complex, t: Real) -> Complex {
        c_add(self, c_scale(c_sub(other, self), t))
    }

    fn lerp(self, other: Complex, t: Real) -> (r: Complex) {
        self.add(other.sub(self).scale(t))
    }

    fn lerp_iter(self, other: Complex, steps: usize) -> (r: LerpIterator<Complex>) {
        LerpIterator::new(self, other, steps)
    }
}

/// How many items an iterator has left to produce.
pub open spec fn remaining_spec<T>(it: LerpIterator<T>) -> nat {
    if it.current_step >= it.steps {
        0
    } else {
        (it.steps - it.current_step) as nat
    }
}

/// The interpolation parameter of step `k` of `steps`: the quotient
/// `k / steps` of the two values as doubles.
pub open spec fn step_fraction(k: usize, steps: usize) -> Real {
    r_div(r_from_usize(k), r_from_usize(steps))
}

/// The closed interpolation sequence: the half-open items of one fewer
/// step, then `end` itself, with the leading item dropped whenever `steps`
/// is positive. In particular a single step yields nothing and two steps
/// yield only `end`.
pub open spec fn lerp_closed_spec<T: Lerp>(begin: T, end: T, steps: usize) -> Seq<T> {
    ({
        let inner = if steps > 0 {
            (steps - 1) as usize
        } else {
            0
        };
        let skipn: int = if steps > 0 {
            1
        } else {
            0
        };
        (Seq::new(
            inner as nat,
            |k: int| begin.lerp_spec(end, step_fraction(k as usize, inner)),
        ) + seq![end]).skip(skipn)
    })
}

/// An iterator across a range defined by its endpoints and the number of
/// intermediate steps: item `k` of `steps` is the mix at parameter
/// `k / steps`.
pub struct LerpIterator<T> {
    pub begin: T,
    pub end: T,
    pub steps: usize,
    pub current_step: usize,
}

impl<T> LerpIterator<T> {
    pub fn new(begin: T, end: T, steps: usize) -> (r: LerpIterator<T>)
        ensures
            r.begin == begin,
            r.end == end,
            r.steps == steps,
            r.current_step == 0,
    {
        LerpIterator { begin, end, steps, current_step: 0 }
    }

    /// How many items remain, as a lower and upper bound.
    pub fn size_hint(&self) -> (r: (usize, Option<usize>))
        ensures
            r.0 == remaining_spec(*self),
            r.1 == Some((remaining_spec(*self) as usize)),
    {
        let remaining: usize = if self.current_step >= self.steps {
            0
        } else {
            self.steps - self.current_step
        };
        (remaining, Some(remaining))
    }
}

impl<T: Lerp> LerpIterator<T> {
    /// The next interpolated value, or nothing once `steps` items have been
    /// produced.
    pub fn next(&mut self) -> (r: Option<T>)
        ensures
            old(self).current_step >= old(self).steps ==> r is None && *final(self) == *old(self),
            old(self).current_step < old(self).steps ==> {
                &&& r == Some(
                    old(self).begin.lerp_spec(
                        old(self).end,
                        step_fraction(old(self).current_step, old(self).steps),
                    ),
                )
                &&& final(self).begin == old(self).begin
                &&& final(self).end == old(self).end
                &&& final(self).steps == old(self).steps
                &&& final(self).current_step == old(self).current_step + 1
            },
    {
        if self.current_step >= self.steps {
            None
        } else {
            let t = Real::from_usize(self.current_step).div(Real::from_usize(self.steps));
            self.current_step = self.current_step + 1;
            Some(self.begin.lerp(self.end, t))
        }
    }
}

} // verus!
