//! The escape-time evaluator.
//!
//! Starting from an initial sample, a step function is applied repeatedly
//! until the squared magnitude of the running value is no longer below the
//! squared threshold, or the iteration bound is reached. The divergence test
//! is the squared-magnitude comparison `re*re + im*im < threshold*threshold`
//! throughout the crate; the per-axis absolute-value test is deliberately not
//! offered, so that every evaluator agrees on one escape boundary.

use vstd::prelude::*;

use crate::complex::Complex;
use crate::complex::c_add;
use crate::complex::c_mul;
use crate::complex::c_norm_sqr;
use crate::double::Real;
use crate::double::r_lt;
use crate::double::r_mul;

verus! {

/// A step function of the escape-time iteration: a pure mapping from one
/// complex sample to the next, safe to evaluate anywhere because it is a
/// mathematical function of its argument alone.
pub trait StepFn: Sized {
    /// The value the step function maps `z` to.
    spec fn step_spec(&self, z: Complex) -> Complex;

    /// Apply the step function once.
    fn step(&self, z: Complex) -> (r: Complex)
        ensures
            r == self.step_spec(z),
    ;
}

/// Bit pattern of the real part of the default Julia constant,
/// the IEEE 754 double closest to -0.221.
pub const JULIA_C_RE_BITS: u64 = 0xBFCC49BA5E353F7D;

/// Bit pattern of the imaginary part of the default Julia constant,
/// the IEEE 754 double closest to -0.713.
pub const JULIA_C_IM_BITS: u64 = 0xBFE6D0E560418937;

/// The default Julia constant.
pub open spec fn julia_constant() -> Complex {
    Complex {
        re: crate::double::Real { bits: JULIA_C_RE_BITS },
        im: crate::double::Real { bits: JULIA_C_IM_BITS },
    }
}

/// The quadratic Julia step `z * z + c`.
#[derive(Clone, Copy, PartialEq, Eq, Structural, Debug)]
pub struct JuliaStep {
    pub c: Complex,
}

impl JuliaStep {
    pub fn new(c: Complex) -> (r: JuliaStep)
        ensures
            r.c == c,
    {
        JuliaStep { c }
    }

    /// The step of the default Julia set, chosen for its aesthetics.
    pub fn default_c() -> (r: JuliaStep)
        ensures
            r.c == julia_constant(),
    {
        JuliaStep { c: Complex::from_bits(JULIA_C_RE_BITS, JULIA_C_IM_BITS) }
    }
}

impl StepFn for JuliaStep {
    open spec fn step_spec(&self, z: Complex) -> Complex {
        c_add(c_mul(z, z), self.c)
    }

    fn step(&self, z: Complex) -> (r: Complex) {
        z.mul(z).add(self.c)
    }
}

/// A default julia set function chosen for its aesthetics:
/// the quadratic step with the default Julia constant.
pub fn default_julia(z: Complex) -> (r: Complex)
    ensures
        r == c_add(c_mul(z, z), julia_constant()),
{
    z.mul(z).add(Complex::from_bits(JULIA_C_RE_BITS, JULIA_C_IM_BITS))
}

/// The `k`-th point of the orbit of `z` under `f`.
pub open spec fn orbit<F: StepFn>(f: &F, z: Complex, k: nat) -> Complex
    decreases k,
{
    if k == 0 {
        z
    } else {
        f.step_spec(orbit(f, z, (k - 1) as nat))
    }
}

/// How many applications of `f` the escape-time loop performs from `z`:
/// it stops as soon as the squared magnitude is not below `tsq`, and never
/// performs more than `bound` applications.
pub open spec fn escape_steps<F: StepFn>(f: &F, z: Complex, tsq: Real, bound: nat) -> nat
    decreases bound,
{
    if bound == 0 {
        0
    } else if !r_lt(c_norm_sqr(z), tsq) {
        0
    } else {
        1 + escape_steps(f, f.step_spec(z), tsq, (bound - 1) as nat)
    }
}

/// The iteration bound in force: the given one, or the largest expressible.
pub open spec fn iteration_limit(bound: Option<usize>) -> nat {
    match bound {
        Some(b) => b as nat,
        None => usize::MAX as nat,
    }
}

/// Count the number of applications of `function` required until the squared
/// magnitude of the state value of repeated applications of `function` on
/// `initial` reaches the threshold. If `bound` is set, don't iterate more
/// than that number of times.
pub fn applications_until<F: StepFn>(
    initial: Complex,
    function: &F,
    threshold: Real,
    bound: Option<usize>,
) -> (count: usize)
    ensures
        count == escape_steps(function, initial, r_mul(threshold, threshold), iteration_limit(bound)),
        count <= iteration_limit(bound),
{
    let limit: usize = match bound {
        Some(b) => b,
        None => usize::MAX,
    };
    let tsq = threshold.mul(threshold);
    let mut value = initial;
    let mut count: usize = 0;
    loop
        invariant_except_break
            count <= limit,
            tsq == r_mul(threshold, threshold),
            escape_steps(function, initial, tsq, limit as nat) == count + escape_steps(
                function,
                value,
                tsq,
                (limit - count) as nat,
            ),
        ensures
            count <= limit,
            escape_steps(function, initial, r_mul(threshold, threshold), limit as nat) == count,
        decreases limit - count,
    {
        if count >= limit {
            assert(escape_steps(function, value, tsq, (limit - count) as nat) == 0);
            break;
        }
        let ns = value.norm_sqr();
        if !ns.lt(tsq) {
            assert(escape_steps(function, value, tsq, (limit - count) as nat) == 0);
            break;
        }
        assert(escape_steps(function, value, tsq, (limit - count) as nat) == 1 + escape_steps(
            function,
            function.step_spec(value),
            tsq,
            (limit - count - 1) as nat,
        ));
        value = function.step(value);
        count = count + 1;
    }
    count
}

/// Shifting the start of an orbit by one application of the step function
/// advances every orbit point by one index.
pub proof fn lemma_orbit_shift<F: StepFn>(f: &F, z: Complex, k: nat)
    ensures
        orbit(f, f.step_spec(z), k) == orbit(f, z, k + 1),
    decreases k,
{
    if k == 0 {
        assert(orbit(f, z, 0) == z);
        assert(orbit(f, z, 1) == f.step_spec(orbit(f, z, 0)));
    } else {
        lemma_orbit_shift(f, z, (k - 1) as nat);
        assert(orbit(f, f.step_spec(z), k) == f.step_spec(orbit(f, f.step_spec(z), (k - 1) as nat)));
        assert(orbit(f, z, k + 1) == f.step_spec(orbit(f, z, k)));
    }
}

/// Bound enforcement: when no point of the orbit within the bound passes the
/// divergence test — a step function that never diverges — the evaluator
/// performs exactly the configured bound of iterations, never fewer and
/// never endlessly.
pub proof fn lemma_bound_enforced<F: StepFn>(f: &F, z: Complex, tsq: Real, bound: nat)
    requires
        forall|k: nat| k < bound ==> r_lt(c_norm_sqr(#[trigger] orbit(f, z, k)), tsq),
    ensures
        escape_steps(f, z, tsq, bound) == bound,
    decreases bound,
{
    if bound > 0 {
        assert(orbit(f, z, 0) == z);
        assert(r_lt(c_norm_sqr(z), tsq));
        assert forall|k: nat| k < bound - 1 implies r_lt(
            c_norm_sqr(#[trigger] orbit(f, f.step_spec(z), k)),
            tsq,
        ) by {
            lemma_orbit_shift(f, z, k);
        }
        lemma_bound_enforced(f, f.step_spec(z), tsq, (bound - 1) as nat);
    }
}

} // verus!
