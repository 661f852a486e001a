//! The pair-to-triple transform and linear interpolation.

use julia_set::iter::DuplicateFirst;
use julia_set::lerp::Lerp;
use julia_set::lerp::LerpIterator;
use julia_set::Complex;
use julia_set::Real;

fn r(x: f64) -> Real {
    Real::from_bits(x.to_bits())
}

#[test]
fn test_dupe_first() {
    let items = vec![(1, 2), (3, 4), (5, 6)];
    let expect = vec![(1, 2, 3), (3, 4, 5)];

    assert_eq!(items.duplicate_first().into_vec(), expect);
}

#[test]
fn test_dupe_first_short_inputs() {
    let empty: Vec<(u8, u8)> = Vec::new();
    assert_eq!(empty.duplicate_first().into_vec(), Vec::<(u8, u8, u8)>::new());
    let single = vec![(1, 2)];
    assert_eq!(single.duplicate_first().into_vec(), Vec::<(i32, i32, i32)>::new());
}

#[test]
fn test_lerp_real() {
    let four = r(3.0).lerp(r(5.0), r(0.5));
    assert_eq!(four.bits, (4.0_f64).to_bits());
    assert_eq!(r(3.0).lerp(r(5.0), r(0.0)).bits, (3.0_f64).to_bits());
    assert_eq!(r(3.0).lerp(r(5.0), r(1.0)).bits, (5.0_f64).to_bits());
    // Extrapolation works the same way.
    assert_eq!(r(3.0).lerp(r(5.0), r(2.0)).bits, (7.0_f64).to_bits());
}

#[test]
fn test_lerp_complex() {
    let a = Complex::from_bits((0.0_f64).to_bits(), (0.0_f64).to_bits());
    let b = Complex::from_bits((2.0_f64).to_bits(), (4.0_f64).to_bits());
    let mid = a.lerp(b, r(0.5));
    assert_eq!(mid.re.bits, (1.0_f64).to_bits());
    assert_eq!(mid.im.bits, (2.0_f64).to_bits());
}

#[test]
fn test_lerp_iterator() {
    // lerp between 3 and 5, collecting two items: the iterator is
    // half-open, so it includes 3 but not 5.
    let mut it = r(3.0).lerp_iter(r(5.0), 2);
    assert_eq!(it.size_hint(), (2, Some(2)));
    assert_eq!(it.next().map(|v| v.bits), Some((3.0_f64).to_bits()));
    assert_eq!(it.size_hint(), (1, Some(1)));
    assert_eq!(it.next().map(|v| v.bits), Some((4.0_f64).to_bits()));
    assert_eq!(it.size_hint(), (0, Some(0)));
    assert_eq!(it.next().map(|v| v.bits), None);
    assert_eq!(it.size_hint(), (0, Some(0)));
}

#[test]
fn test_lerp_iter_closed() {
    let collect_bits = |steps: usize| -> Vec<u64> {
        julia_set::lerp::lerp_iter_closed(r(3.0), r(5.0), steps)
            .into_iter()
            .map(|v| v.bits)
            .collect()
    };
    assert_eq!(collect_bits(0), vec![(5.0_f64).to_bits()]);
    assert_eq!(collect_bits(1), Vec::<u64>::new());
    assert_eq!(collect_bits(2), vec![(5.0_f64).to_bits()]);
    assert_eq!(collect_bits(3), vec![(4.0_f64).to_bits(), (5.0_f64).to_bits()]);
    assert_eq!(
        collect_bits(5),
        vec![
            (3.5_f64).to_bits(),
            (4.0_f64).to_bits(),
            (4.5_f64).to_bits(),
            (5.0_f64).to_bits(),
        ]
    );
}

#[test]
fn test_lerp_iterator_empty() {
    let mut it = LerpIterator::new(r(1.0), r(2.0), 0);
    assert_eq!(it.size_hint(), (0, Some(0)));
    assert!(it.next().is_none());
}

#[test]
fn test_lerp_iterator_complex_path() {
    let a = Complex::from_bits((0.0_f64).to_bits(), (0.0_f64).to_bits());
    let b = Complex::from_bits((4.0_f64).to_bits(), (-4.0_f64).to_bits());
    let mut it = a.lerp_iter(b, 4);
    let mut reals = Vec::new();
    while let Some(p) = it.next() {
        reals.push((p.re.bits, p.im.bits));
    }
    assert_eq!(
        reals,
        vec![
            ((0.0_f64).to_bits(), (0.0_f64).to_bits()),
            ((1.0_f64).to_bits(), (-1.0_f64).to_bits()),
            ((2.0_f64).to_bits(), (-2.0_f64).to_bits()),
            ((3.0_f64).to_bits(), (-3.0_f64).to_bits()),
        ]
    );
}
