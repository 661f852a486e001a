//! The real and complex primitives against hardware double arithmetic.

use julia_set::Complex;
use julia_set::Real;

fn r(x: f64) -> Real {
    Real::from_bits(x.to_bits())
}

#[test]
fn test_real_add_sub_mul_div() {
    assert_eq!(r(1.5).add(r(2.25)).bits, (3.75_f64).to_bits());
    assert_eq!(r(1.5).sub(r(2.25)).bits, (-0.75_f64).to_bits());
    assert_eq!(r(1.5).mul(r(2.25)).bits, (3.375_f64).to_bits());
    assert_eq!(r(1.5).div(r(0.5)).bits, (3.0_f64).to_bits());
    // A third of one is not representable exactly; the quotient must be the
    // correctly rounded hardware result, not some shortcut.
    assert_eq!(r(1.0).div(r(3.0)).bits, (1.0_f64 / 3.0_f64).to_bits());
    // Division by zero yields an infinity, not a panic.
    assert_eq!(r(1.0).div(r(0.0)).bits, f64::INFINITY.to_bits());
}

#[test]
fn test_real_comparison() {
    assert!(r(1.0).lt(r(2.0)));
    assert!(!r(2.0).lt(r(1.0)));
    assert!(!r(2.0).lt(r(2.0)));
    assert!(r(-3.0).lt(r(-2.5)));
    // NaN compares below nothing and above nothing.
    assert!(!r(f64::NAN).lt(r(0.0)));
    assert!(!r(0.0).lt(r(f64::NAN)));
}

#[test]
fn test_real_conversions() {
    assert_eq!(Real::from_u32(0).bits, (0.0_f64).to_bits());
    assert_eq!(Real::from_u32(7).bits, (7.0_f64).to_bits());
    assert_eq!(Real::from_u32(u32::MAX).bits, (u32::MAX as f64).to_bits());
    assert_eq!(Real::from_usize(0).bits, (0.0_f64).to_bits());
    assert_eq!(Real::from_usize(100).bits, (100.0_f64).to_bits());
    // Large enough to exercise rounding in the conversion.
    assert_eq!(
        Real::from_usize(9_007_199_254_740_993).bits,
        (9_007_199_254_740_993_usize as f64).to_bits()
    );
}

#[test]
fn test_complex_arithmetic_matches_num() {
    let pairs = [
        ((1.5_f64, -2.0_f64), (0.25_f64, 3.0_f64)),
        ((0.0, 0.0), (1.0, 1.0)),
        ((-0.7, 0.3), (-0.7, 0.3)),
    ];
    for &((ar, ai), (br, bi)) in pairs.iter() {
        let a = Complex::from_bits(ar.to_bits(), ai.to_bits());
        let b = Complex::from_bits(br.to_bits(), bi.to_bits());
        let na = num::complex::Complex64::new(ar, ai);
        let nb = num::complex::Complex64::new(br, bi);

        let sum = a.add(b);
        let nsum = na + nb;
        assert_eq!((sum.re.bits, sum.im.bits), (nsum.re.to_bits(), nsum.im.to_bits()));

        let diff = a.sub(b);
        let ndiff = na - nb;
        assert_eq!((diff.re.bits, diff.im.bits), (ndiff.re.to_bits(), ndiff.im.to_bits()));

        let prod = a.mul(b);
        let nprod = na * nb;
        assert_eq!((prod.re.bits, prod.im.bits), (nprod.re.to_bits(), nprod.im.to_bits()));

        assert_eq!(a.norm_sqr().bits, na.norm_sqr().to_bits());

        let scaled = a.scale(r(0.5));
        let nscaled = na * 0.5;
        assert_eq!((scaled.re.bits, scaled.im.bits), (nscaled.re.to_bits(), nscaled.im.to_bits()));
    }
}
