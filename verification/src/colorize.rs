//! Functions to colorize an image.
//!
//! The escape-time computation is monochromatic; the only truly natural
//! mapping of its output is to grayscale. Colorization distinguishes fine
//! details and simply looks prettier.
//!
//! The mapping walks a spiral on the outside of the HSL cylinder: saturation
//! stays at 1, black maps to black at the bottom and white to white at the
//! top, and the hue runs so that darks produce deep blues and lights produce
//! bright yellows — a purely aesthetic choice. The final HSL-to-RGB step is
//! the `hsl` crate's conversion, relied upon as a pure function of the three
//! components.

use vstd::prelude::*;

use crate::double::Real;
use crate::double::r_add;
use crate::double::r_div;
use crate::double::r_mul;
use crate::double::r_sub;
use crate::double::r_from_u32;

verus! {

/// A color as hue, saturation and luminosity, each an IEEE 754 double
/// carried as its bit pattern.
#[derive(Clone, Copy, PartialEq, Eq, Structural, Debug)]
pub struct Hsl {
    pub h: Real,
    pub s: Real,
    pub l: Real,
}

/// Bit pattern of the IEEE 754 double 310.0: the starting hue, deep under
/// the dark blues, almost violet.
pub const BEGIN_H_BITS: u64 = 0x4073600000000000;

/// Bit pattern of the IEEE 754 double 30.0: the final hue, just over the
/// region where yellow is becoming orange.
pub const END_H_BITS: u64 = 0x403E000000000000;

/// Bit pattern of the IEEE 754 double 1.0.
pub const ONE_BITS: u64 = 0x3FF0000000000000;

/// Bit pattern of the IEEE 754 double 0.0.
pub const ZERO_BITS: u64 = 0x0000000000000000;

/// The dark end of the spiral: almost-violet hue, full saturation, black.
pub open spec fn begin_color() -> Hsl {
    Hsl {
        h: Real { bits: BEGIN_H_BITS },
        s: Real { bits: ONE_BITS },
        l: Real { bits: ZERO_BITS },
    }
}

/// The light end of the spiral: yellow-orange hue, full saturation, white.
pub open spec fn end_color() -> Hsl {
    Hsl {
        h: Real { bits: END_H_BITS },
        s: Real { bits: ONE_BITS },
        l: Real { bits: ONE_BITS },
    }
}

/// What the `hsl` crate's HSL-to-RGB conversion returns for the color with
/// these component bit patterns.
pub uninterp spec fn rgb_of_hsl(h: u64, s: u64, l: u64) -> (u8, u8, u8);

/// Relies on `hsl::HSL::to_rgb`: a pure conversion, a deterministic function
/// of the three components alone.
#[verifier::external_body]
fn hsl_to_rgb(color: Hsl) -> (r: (u8, u8, u8))
    ensures
        r == rgb_of_hsl(color.h.bits, color.s.bits, color.l.bits),
{
    hsl::HSL {
        h: num::traits::FromBytes::from_le_bytes(&color.h.bits.to_le_bytes()),
        s: num::traits::FromBytes::from_le_bytes(&color.s.bits.to_le_bytes()),
        l: num::traits::FromBytes::from_le_bytes(&color.l.bits.to_le_bytes()),
    }.to_rgb()
}

/// The naive linear interpolation `begin + (t * (end - begin))`.
pub open spec fn interpolate_spec(begin: Real, end: Real, t: Real) -> Real {
    r_add(begin, r_mul(t, r_sub(end, begin)))
}

/// The componentwise interpolation between two HSL colors.
pub open spec fn interpolate_hsl_spec(begin: Hsl, end: Hsl, t: Hsl) -> Hsl {
    Hsl {
        h: interpolate_spec(begin.h, end.h, t.h),
        s: interpolate_spec(begin.s, end.s, t.s),
        l: interpolate_spec(begin.l, end.l, t.l),
    }
}

/// Where along the spiral a grayscale intensity lands: its fraction of the
/// full byte range.
pub open spec fn intensity_fraction(pixel: u8) -> Real {
    r_div(r_from_u32(pixel as u32), r_from_u32(255))
}

/// The color of one grayscale intensity: the spiral point at its fraction
/// of the byte range, converted to RGB.
pub open spec fn colorize_pixel_spec(pixel: u8) -> (u8, u8, u8) {
    ({
        let t = intensity_fraction(pixel);
        let color = Hsl {
            h: interpolate_spec(begin_color().h, end_color().h, t),
            s: interpolate_spec(begin_color().s, end_color().s, t),
            l: interpolate_spec(begin_color().l, end_color().l, t),
        };
        rgb_of_hsl(color.h.bits, color.s.bits, color.l.bits)
    })
}

/// Colorizer which uses HSL color theory to produce pretty colorization of
/// grayscale buffers.
pub struct HSLColorizer {
}

impl HSLColorizer {
    pub fn new() -> (r: HSLColorizer)
        ensures
            r == (HSLColorizer {  }),
    {
        HSLColorizer {  }
    }

    /// The naive interpolater: it doesn't wrap, ever. `t` is expected in
    /// the range from 0 to 1 and describes how far along the range from
    /// `begin` to `end` the target color is.
    fn interpolate(&self, begin: Real, end: Real, t: Real) -> (r: Real)
        ensures
            r == interpolate_spec(begin, end, t),
    {
        begin.add(t.mul(end.sub(begin)))
    }

    /// Interpolate each HSL component with the same parameter `t`.
    fn interpolate_hsl(&self, begin: Hsl, end: Hsl, t: Real) -> (r: Hsl)
        ensures
            r == interpolate_hsl_spec(begin, end, (Hsl { h: t, s: t, l: t })),
    {
        Hsl {
            h: self.interpolate(begin.h, end.h, t),
            s: self.interpolate(begin.s, end.s, t),
            l: self.interpolate(begin.l, end.l, t),
        }
    }

    /// Colorize a single grayscale intensity.
    pub fn colorize_pixel(&self, pixel: u8) -> (r: (u8, u8, u8))
        ensures
            r == colorize_pixel_spec(pixel),
    {
        let t = Real::from_u32(pixel as u32).div(Real::from_u32(255));
        let begin = Hsl {
            h: Real::from_bits(BEGIN_H_BITS),
            s: Real::from_bits(ONE_BITS),
            l: Real::from_bits(ZERO_BITS),
        };
        let end = Hsl {
            h: Real::from_bits(END_H_BITS),
            s: Real::from_bits(ONE_BITS),
            l: Real::from_bits(ONE_BITS),
        };
        let color = self.interpolate_hsl(begin, end, t);
        hsl_to_rgb(color)
    }

    /// Colorize a single grayscale intensity with alpha information:
    /// the same color at full opacity.
    pub fn colorize_pixel_alpha(&self, pixel: u8) -> (r: (u8, u8, u8, u8))
        ensures
            r.0 == colorize_pixel_spec(pixel).0,
            r.1 == colorize_pixel_spec(pixel).1,
            r.2 == colorize_pixel_spec(pixel).2,
            r.3 == 255,
    {
        let rgb = self.colorize_pixel(pixel);
        (rgb.0, rgb.1, rgb.2, 255)
    }

    /// Colorize a grayscale buffer into an RGB buffer: three bytes for each
    /// input byte, in order.
    pub fn colorize(&self, image: &Vec<u8>) -> (r: Vec<u8>)
        ensures
            r@.len() == 3 * image@.len(),
            forall|i: int|
                0 <= i < image@.len() ==> {
                    &&& r@[3 * i] == colorize_pixel_spec(#[trigger] image@[i]).0
                    &&& r@[3 * i + 1] == colorize_pixel_spec(image@[i]).1
                    &&& r@[3 * i + 2] == colorize_pixel_spec(image@[i]).2
                },
    {
        let mut out: Vec<u8> = Vec::new();
        let mut i: usize = 0;
        let n = image.len();
        while i < n
            invariant
                i <= n,
                n == image@.len(),
                out@.len() == 3 * i,
                forall|j: int|
                    0 <= j < i ==> {
                        &&& out@[3 * j] == colorize_pixel_spec(#[trigger] image@[j]).0
                        &&& out@[3 * j + 1] == colorize_pixel_spec(image@[j]).1
                        &&& out@[3 * j + 2] == colorize_pixel_spec(image@[j]).2
                    },
            decreases n - i,
        {
            let rgb = self.colorize_pixel(image[i]);
            out.push(rgb.0);
            out.push(rgb.1);
            out.push(rgb.2);
            i = i + 1;
        }
        out
    }

    /// Colorize a grayscale buffer into an RGBA buffer at full opacity:
    /// four bytes for each input byte, in order.
    pub fn colorize_alpha(&self, image: &Vec<u8>) -> (r: Vec<u8>)
        ensures
            r@.len() == 4 * image@.len(),
            forall|i: int|
                0 <= i < image@.len() ==> {
                    &&& r@[4 * i] == colorize_pixel_spec(#[trigger] image@[i]).0
                    &&& r@[4 * i + 1] == colorize_pixel_spec(image@[i]).1
                    &&& r@[4 * i + 2] == colorize_pixel_spec(image@[i]).2
                    &&& r@[4 * i + 3] == 255
                },
    {
        let mut out: Vec<u8> = Vec::new();
        let mut i: usize = 0;
        let n = image.len();
        while i < n
            invariant
                i <= n,
                n == image@.len(),
                out@.len() == 4 * i,
                forall|j: int|
                    0 <= j < i ==> {
                        &&& out@[4 * j] == colorize_pixel_spec(#[trigger] image@[j]).0
                        &&& out@[4 * j + 1] == colorize_pixel_spec(image@[j]).1
                        &&& out@[4 * j + 2] == colorize_pixel_spec(image@[j]).2
                        &&& out@[4 * j + 3] == 255
                    },
            decreases n - i,
        {
            let rgba = self.colorize_pixel_alpha(image[i]);
            out.push(rgba.0);
            out.push(rgba.1);
            out.push(rgba.2);
            out.push(rgba.3);
            i = i + 1;
        }
        out
    }
}

} // verus!
