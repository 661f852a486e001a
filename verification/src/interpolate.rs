//! The coordinate mapper: from pixel coordinates to complex samples.
//!
//! A mapper is bound to one image size and one viewport — the logical
//! rectangle of the complex plane drawn onto the image — and interpolates
//! linearly: pixel `x` of `width` lands at
//! `min_x + (x / (width - 1)) * (max_x - min_x)`, and likewise for `y`.
//! An axis of a single pixel maps to its lower bound exactly, avoiding the
//! undefined quotient `0 / 0`.
//!
//! Two construction policies are offered: `interpolate_stretch` uses the
//! viewport as given, while `interpolate_rectilinear` first widens whichever
//! logical axis is relatively narrower, symmetrically about its center, so
//! that the logical aspect ratio equals the pixel aspect ratio.

use vstd::prelude::*;

use crate::complex::Complex;
use crate::double::Real;
use crate::double::r_add;
use crate::double::r_div;
use crate::double::r_lt;
use crate::double::r_mul;
use crate::double::r_sub;
use crate::double::r_from_u32;

verus! {

/// Bit pattern of the IEEE 754 double 2.0, the divisor that finds an
/// axis center.
pub const TWO_BITS: u64 = 0x4000000000000000;

/// The IEEE 754 double 2.0.
pub open spec fn two() -> Real {
    Real { bits: TWO_BITS }
}

/// A coordinate mapper bound to one image size and one viewport.
/// Mapping is pure: repeated calls with the same pixel give the same sample.
///
/// The viewport is expected to satisfy `min < max` on each axis; a
/// degenerate viewport is a caller error and yields samples computed from
/// the degenerate bounds as IEEE 754 arithmetic defines them.
#[derive(Clone, Copy, PartialEq, Eq, Structural, Debug)]
pub struct PixelMapper {
    pub width: u32,
    pub height: u32,
    pub min_x: Real,
    pub max_x: Real,
    pub min_y: Real,
    pub max_y: Real,
}

/// Where pixel `i` of an axis of `n` pixels lands between `min` and `max`:
/// `min + (i / (n - 1)) * (max - min)`, and `min` exactly when the axis has
/// at most one pixel.
pub open spec fn axis_point(min: Real, max: Real, i: u32, n: u32) -> Real {
    if n <= 1 {
        min
    } else {
        r_add(min, r_mul(r_div(r_from_u32(i), r_from_u32((n - 1) as u32)), r_sub(max, min)))
    }
}

/// The complex sample of pixel `(x, y)` under mapper `m`.
pub open spec fn map_spec(m: PixelMapper, x: u32, y: u32) -> Complex {
    Complex {
        re: axis_point(m.min_x, m.max_x, x, m.width),
        im: axis_point(m.min_y, m.max_y, y, m.height),
    }
}

/// The pixel aspect ratio `width / height`.
pub open spec fn viewport_ratio(width: u32, height: u32) -> Real {
    r_div(r_from_u32(width), r_from_u32(height))
}

/// The logical aspect ratio `(max_x - min_x) / (max_y - min_y)`.
pub open spec fn range_ratio(min_x: Real, max_x: Real, min_y: Real, max_y: Real) -> Real {
    r_div(r_sub(max_x, min_x), r_sub(max_y, min_y))
}

/// One axis widened symmetrically about its center: the half-width
/// `max - center` scales by `num / den`, and the new bounds are
/// `center - arm` and `center + arm`.
pub open spec fn widened_axis(min: Real, max: Real, num: Real, den: Real) -> (Real, Real) {
    let center = r_div(r_add(min, max), two());
    let arm = r_div(r_mul(r_sub(max, center), num), den);
    (r_sub(center, arm), r_add(center, arm))
}

/// The mapper that `interpolate_rectilinear` builds: when the pixel image is
/// relatively wider than the viewport the x axis widens by the ratio of
/// ratios, when it is relatively narrower the y axis widens, and when the
/// ratios compare equal the viewport is kept as given.
pub open spec fn rectilinear_spec(
    width: u32,
    height: u32,
    min_x: Real,
    max_x: Real,
    min_y: Real,
    max_y: Real,
) -> PixelMapper {
    let vr = viewport_ratio(width, height);
    let rr = range_ratio(min_x, max_x, min_y, max_y);
    if r_lt(rr, vr) {
        let bounds = widened_axis(min_x, max_x, vr, rr);
        PixelMapper { width, height, min_x: bounds.0, max_x: bounds.1, min_y, max_y }
    } else if r_lt(vr, rr) {
        let bounds = widened_axis(min_y, max_y, rr, vr);
        PixelMapper { width, height, min_x, max_x, min_y: bounds.0, max_y: bounds.1 }
    } else {
        PixelMapper { width, height, min_x, max_x, min_y, max_y }
    }
}

impl PixelMapper {
    /// Gets an appropriate complex value for a pixel coordinate in the
    /// mapper's output size.
    pub fn at(&self, x: u32, y: u32) -> (r: Complex)
        ensures
            r == map_spec(*self, x, y),
    {
        let re = if self.width <= 1 {
            self.min_x
        } else {
            self.min_x.add(
                Real::from_u32(x).div(Real::from_u32(self.width - 1)).mul(
                    self.max_x.sub(self.min_x),
                ),
            )
        };
        let im = if self.height <= 1 {
            self.min_y
        } else {
            self.min_y.add(
                Real::from_u32(y).div(Real::from_u32(self.height - 1)).mul(
                    self.max_y.sub(self.min_y),
                ),
            )
        };
        Complex { re, im }
    }
}

/// Construct a mapper which gets an appropriate complex value for a pixel
/// coordinate in a given output size.
///
/// If the viewport aspect ratio does not match the aspect ratio of the given
/// x, y range, this interpolator stretches the range to fit the viewport.
pub fn interpolate_stretch(
    width: u32,
    height: u32,
    min_x: Real,
    max_x: Real,
    min_y: Real,
    max_y: Real,
) -> (m: PixelMapper)
    ensures
        m == (PixelMapper { width, height, min_x, max_x, min_y, max_y }),
{
    PixelMapper { width, height, min_x, max_x, min_y, max_y }
}

/// Construct a mapper which gets an appropriate complex value for a pixel
/// coordinate in a given output size.
///
/// This function examines the width and height of the image given, and
/// compares them to the domains of x and y. If the aspect ratios do not
/// match, the range of x or y is **increased** as appropriate to make the
/// aspect ratios match: the relatively narrower logical axis widens
/// symmetrically about its center, so the midpoints stay fixed.
pub fn interpolate_rectilinear(
    width: u32,
    height: u32,
    min_x: Real,
    max_x: Real,
    min_y: Real,
    max_y: Real,
) -> (m: PixelMapper)
    ensures
        m == rectilinear_spec(width, height, min_x, max_x, min_y, max_y),
{
    let vr = Real::from_u32(width).div(Real::from_u32(height));
    let rr = max_x.sub(min_x).div(max_y.sub(min_y));
    if rr.lt(vr) {
        let center = min_x.add(max_x).div(Real::from_bits(TWO_BITS));
        let arm = max_x.sub(center).mul(vr).div(rr);
        PixelMapper {
            width,
            height,
            min_x: center.sub(arm),
            max_x: center.add(arm),
            min_y,
            max_y,
        }
    } else if vr.lt(rr) {
        let center = min_y.add(max_y).div(Real::from_bits(TWO_BITS));
        let arm = max_y.sub(center).mul(rr).div(vr);
        PixelMapper {
            width,
            height,
            min_x,
            max_x,
            min_y: center.sub(arm),
            max_y: center.add(arm),
        }
    } else {
        PixelMapper { width, height, min_x, max_x, min_y, max_y }
    }
}

/// Coordinate mapper correctness on a single-pixel image: every pixel of a
/// one-by-one image maps exactly to the viewport's lower bounds.
pub proof fn lemma_single_pixel_maps_to_min(m: PixelMapper, x: u32, y: u32)
    requires
        m.width == 1,
        m.height == 1,
    ensures
        map_spec(m, x, y) == (Complex { re: m.min_x, im: m.min_y }),
{
}

} // verus!
