//! The renderers: from image size, step function, coordinate mapper and
//! threshold to a row-major grayscale buffer, one byte per pixel, the byte
//! being the escape count capped at 255.
//!
//! `render_spec` is the single mathematical description of that buffer; the
//! nested-loop sequential renderer and the row-claiming renderer are both
//! proved equal to it, and `lemma_rows_assemble` extends the agreement to any
//! buffer assembled from whole rows at their fixed offsets, in whatever order
//! the rows were finished — which is exactly what a pool of workers sharing a
//! row cursor produces.

use vstd::prelude::*;
use vstd::arithmetic::div_mod::lemma_fundamental_div_mod;
use vstd::arithmetic::div_mod::lemma_fundamental_div_mod_converse;
use vstd::arithmetic::div_mod::lemma_mod_bound;
use vstd::arithmetic::mul::lemma_mul_inequality;
use vstd::arithmetic::mul::lemma_mul_is_commutative;

use crate::complex::Complex;
use crate::double::Real;
use crate::double::r_mul;
use crate::escape::StepFn;
use crate::escape::applications_until;
use crate::escape::escape_steps;
use crate::interpolate::PixelMapper;
use crate::interpolate::map_spec;
use crate::partition::RowCursor;

verus! {

/// Why a render request was rejected.
#[derive(Clone, Copy, PartialEq, Eq, Structural, Debug)]
pub enum RenderError {
    /// A width or height of zero: per-pixel normalization would be
    /// undefined, so the request fails fast instead.
    InvalidDimension,
}

/// The intensity of pixel `(x, y)`: the escape count of its sample point,
/// capped at 255 so it fills one byte.
pub open spec fn pixel_spec<F: StepFn>(
    f: &F,
    m: PixelMapper,
    threshold: Real,
    x: u32,
    y: u32,
) -> u8 {
    escape_steps(f, map_spec(m, x, y), r_mul(threshold, threshold), 255) as u8
}

/// Row `y` of the rendered image: `width` pixel intensities.
pub open spec fn row_spec<F: StepFn>(
    f: &F,
    m: PixelMapper,
    threshold: Real,
    width: u32,
    y: u32,
) -> Seq<u8> {
    Seq::new(width as nat, |x: int| pixel_spec(f, m, threshold, x as u32, y))
}

/// The whole rendered image, row-major: pixel `(x, y)` at index
/// `y * width + x`.
pub open spec fn render_spec<F: StepFn>(
    f: &F,
    m: PixelMapper,
    threshold: Real,
    width: u32,
    height: u32,
) -> Seq<u8> {
    Seq::new(
        (width as nat) * (height as nat),
        |i: int|
            pixel_spec(
                f,
                m,
                threshold,
                (i % (width as int)) as u32,
                (i / (width as int)) as u32,
            ),
    )
}

/// Compute all `width` pixel intensities of row `y` into a fresh buffer.
///
/// This is the unit of work a renderer's worker performs after claiming a
/// row; it touches nothing shared.
pub fn compute_row<F: StepFn>(
    function: &F,
    mapper: &PixelMapper,
    threshold: Real,
    width: u32,
    y: u32,
) -> (row: Vec<u8>)
    ensures
        row@ == row_spec(function, *mapper, threshold, width, y),
{
    let mut row: Vec<u8> = Vec::new();
    let mut x: u32 = 0;
    while x < width
        invariant
            x <= width,
            row@.len() == x as nat,
            forall|j: int|
                0 <= j < x ==> row@[j] == pixel_spec(function, *mapper, threshold, j as u32, y),
        decreases width - x,
    {
        let sample = mapper.at(x, y);
        let count = applications_until(sample, function, threshold, Some(255));
        row.push(count as u8);
        x = x + 1;
    }
    proof {
        assert(row@ =~= row_spec(function, *mapper, threshold, width, y));
    }
    row
}

/// Construct an image sequentially: a straightforward nested loop over rows
/// and columns, the reference the parallel assembly is proved against.
///
/// Fails exactly when a dimension is zero.
pub fn sequential_image<F: StepFn>(
    width: u32,
    height: u32,
    function: &F,
    mapper: &PixelMapper,
    threshold: Real,
) -> (r: Result<Vec<u8>, RenderError>)
    requires
        (width as nat) * (height as nat) <= usize::MAX as nat,
    ensures
        match r {
            Ok(buf) => width > 0 && height > 0 && buf@ == render_spec(
                function,
                *mapper,
                threshold,
                width,
                height,
            ),
            Err(e) => (width == 0 || height == 0) && e == RenderError::InvalidDimension,
        },
{
    if width == 0 || height == 0 {
        return Err(RenderError::InvalidDimension);
    }
    let mut buf: Vec<u8> = Vec::new();
    let mut y: u32 = 0;
    while y < height
        invariant
            y <= height,
            width > 0,
            height > 0,
            (width as nat) * (height as nat) <= usize::MAX as nat,
            buf@.len() == (y as nat) * (width as nat),
            forall|i: int|
                0 <= i < buf@.len() ==> buf@[i] == pixel_spec(
                    function,
                    *mapper,
                    threshold,
                    (i % (width as int)) as u32,
                    (i / (width as int)) as u32,
                ),
        decreases height - y,
    {
        let mut x: u32 = 0;
        proof {
            lemma_mul_inequality(y as int + 1, height as int, width as int);
        }
        while x < width
            invariant
                x <= width,
                y < height,
                width > 0,
                height > 0,
                (y as nat + 1) * (width as nat) <= usize::MAX as nat,
                buf@.len() == (y as nat) * (width as nat) + x as nat,
                forall|i: int|
                    0 <= i < buf@.len() ==> buf@[i] == pixel_spec(
                        function,
                        *mapper,
                        threshold,
                        (i % (width as int)) as u32,
                        (i / (width as int)) as u32,
                    ),
            decreases width - x,
        {
            let sample = mapper.at(x, y);
            let count = applications_until(sample, function, threshold, Some(255));
            proof {
                let idx = (y as int) * (width as int) + (x as int);
                assert((y as int + 1) * (width as int) == (y as int) * (width as int) + (
                width as int)) by (nonlinear_arith);
                lemma_fundamental_div_mod_converse(idx, width as int, y as int, x as int);
            }
            buf.push(count as u8);
            x = x + 1;
        }
        proof {
            assert((y as int + 1) * (width as int) == (y as int) * (width as int) + (
            width as int)) by (nonlinear_arith);
        }
        y = y + 1;
    }
    proof {
        assert((width as nat) * (height as nat) == (height as nat) * (width as nat));
        assert(buf@ =~= render_spec(function, *mapper, threshold, width, height));
    }
    Ok(buf)
}

/// Copy a finished row into the shared buffer at its fixed offset
/// `y * width`. Distinct rows occupy disjoint ranges, so writes of different
/// rows never touch the same byte.
fn write_row(buf: &mut Vec<u8>, width: u32, y: u32, row: &Vec<u8>)
    requires
        row@.len() == width as nat,
        ((y as nat) + 1) * (width as nat) <= old(buf)@.len(),
    ensures
        final(buf)@.len() == old(buf)@.len(),
        final(buf)@.subrange((y as int) * (width as int), ((y as int) + 1) * (width as int))
            == row@,
        forall|i: int|
            0 <= i < old(buf)@.len() && !((y as int) * (width as int) <= i < ((y as int) + 1) * (
            width as int)) ==> final(buf)@[i] == old(buf)@[i],
{
    let buflen: usize = buf.len();
    proof {
        assert(buf@.len() == buflen);
        assert(((y as int) + 1) * (width as int) == (y as int) * (width as int) + (width as int))
            by (nonlinear_arith);
        lemma_mul_inequality(y as int, y as int + 1, width as int);
    }
    let ghost orig = buf@;
    let base: usize = (y as usize) * (width as usize);
    let mut j: usize = 0;
    while j < width as usize
        invariant
            j <= width as nat,
            base == (y as nat) * (width as nat),
            base + width as nat <= buf@.len(),
            row@.len() == width as nat,
            buf@.len() == buflen,
            buf@.len() == orig.len(),
            forall|i: int| base <= i < base + j ==> buf@[i] == row@[i - base],
            forall|i: int| 0 <= i < orig.len() && !(base <= i < base + j) ==> buf@[i] == orig[i],
        decreases width as usize - j,
    {
        let value = row[j];
        buf.set(base + j, value);
        j = j + 1;
    }
    proof {
        assert(buf@.subrange((y as int) * (width as int), ((y as int) + 1) * (width as int))
            =~= row@);
    }
}

/// Construct an image by claiming rows from a cursor until none remain,
/// computing each claimed row whole and writing it at its fixed offset.
///
/// This is the loop each worker of a parallel render runs; here one claimant
/// drains the cursor, and the result is proved byte-identical to the
/// sequential renderer's. Fails exactly when a dimension is zero.
pub fn render_rows<F: StepFn>(
    width: u32,
    height: u32,
    function: &F,
    mapper: &PixelMapper,
    threshold: Real,
) -> (r: Result<Vec<u8>, RenderError>)
    requires
        (width as nat) * (height as nat) <= usize::MAX as nat,
    ensures
        match r {
            Ok(buf) => width > 0 && height > 0 && buf@ == render_spec(
                function,
                *mapper,
                threshold,
                width,
                height,
            ),
            Err(e) => (width == 0 || height == 0) && e == RenderError::InvalidDimension,
        },
{
    if width == 0 || height == 0 {
        return Err(RenderError::InvalidDimension);
    }
    let total: usize = (width as usize) * (height as usize);
    let mut buf: Vec<u8> = Vec::new();
    while buf.len() < total
        invariant
            buf@.len() <= total,
            total == (width as nat) * (height as nat),
        decreases total - buf@.len(),
    {
        buf.push(0);
    }
    let mut cursor = RowCursor::new(height);
    loop
        invariant_except_break
            cursor.height == height,
            cursor.next <= height,
            width > 0,
            height > 0,
            buf@.len() == (width as nat) * (height as nat),
            forall|yy: u32|
                yy < cursor.next ==> #[trigger] buf@.subrange(
                    (yy as int) * (width as int),
                    ((yy as int) + 1) * (width as int),
                ) == row_spec(function, *mapper, threshold, width, yy),
        ensures
            buf@.len() == (width as nat) * (height as nat),
            forall|yy: u32|
                yy < height ==> #[trigger] buf@.subrange(
                    (yy as int) * (width as int),
                    ((yy as int) + 1) * (width as int),
                ) == row_spec(function, *mapper, threshold, width, yy),
        decreases height - cursor.next,
    {
        let claimed = cursor.claim();
        match claimed {
            None => {
                break;
            },
            Some(yy) => {
                let row = compute_row(function, mapper, threshold, width, yy);
                proof {
                    lemma_mul_inequality(yy as int + 1, height as int, width as int);
                    lemma_mul_is_commutative(width as int, height as int);
                }
                let ghost prev = buf@;
                write_row(&mut buf, width, yy, &row);
                proof {
                    assert forall|yp: u32| yp < cursor.next implies #[trigger] buf@.subrange(
                        (yp as int) * (width as int),
                        ((yp as int) + 1) * (width as int),
                    ) == row_spec(function, *mapper, threshold, width, yp) by {
                        let w = width as int;
                        lemma_mul_inequality(yp as int, yp as int + 1, w);
                        lemma_mul_inequality(yp as int + 1, height as int, w);
                        lemma_mul_inequality(yy as int, height as int, w);
                        lemma_mul_is_commutative(w, height as int);
                        if yp < yy {
                            lemma_mul_inequality(yp as int + 1, yy as int, w);
                            assert(prev.subrange((yp as int) * w, ((yp as int) + 1) * w)
                                == row_spec(function, *mapper, threshold, width, yp));
                            assert(buf@.subrange((yp as int) * w, ((yp as int) + 1) * w)
                                =~= prev.subrange((yp as int) * w, ((yp as int) + 1) * w));
                        }
                    }
                }
            },
        }
    }
    proof {
        lemma_rows_assemble(function, *mapper, threshold, width, height, buf@);
    }
    Ok(buf)
}

/// Sequential/parallel agreement: a buffer assembled row by row — each row
/// written whole at its fixed offset, in whatever order the rows were
/// claimed and finished — is byte-identical to the sequentially rendered
/// image of the same inputs. The buffer is determined by the row contents
/// alone, not by any schedule.
pub proof fn lemma_rows_assemble<F: StepFn>(
    f: &F,
    m: PixelMapper,
    threshold: Real,
    width: u32,
    height: u32,
    buf: Seq<u8>,
)
    requires
        buf.len() == (width as nat) * (height as nat),
        forall|y: u32|
            y < height ==> #[trigger] buf.subrange(
                (y as int) * (width as int),
                ((y as int) + 1) * (width as int),
            ) == row_spec(f, m, threshold, width, y),
    ensures
        buf == render_spec(f, m, threshold, width, height),
{
    let w = width as int;
    let h = height as int;
    if buf.len() == 0 {
        assert(buf =~= render_spec(f, m, threshold, width, height));
    } else {
        assert(w > 0 && h > 0) by (nonlinear_arith)
            requires
                w >= 0,
                h >= 0,
                w * h > 0,
        ;
        assert forall|i: int| 0 <= i < buf.len() implies buf[i] == render_spec(
            f,
            m,
            threshold,
            width,
            height,
        )[i] by {
            lemma_fundamental_div_mod(i, w);
            lemma_mod_bound(i, w);
            let q = i / w;
            let x = i % w;
            assert(0 <= q && q < h) by (nonlinear_arith)
                requires
                    w > 0,
                    h > 0,
                    0 <= i < w * h,
                    i == w * q + x,
                    0 <= x < w,
            ;
            let yq = q as u32;
            assert(yq as int == q);
            lemma_mul_is_commutative(w, q);
            lemma_mul_is_commutative(h, w);
            lemma_mul_inequality(0, q, w);
            lemma_mul_inequality(q, q + 1, w);
            lemma_mul_inequality(q + 1, h, w);
            assert(buf.subrange((yq as int) * w, ((yq as int) + 1) * w) == row_spec(
                f,
                m,
                threshold,
                width,
                yq,
            ));
            assert(((yq as int) + 1) * w == (yq as int) * w + w) by (nonlinear_arith);
            assert(buf.subrange((yq as int) * w, ((yq as int) + 1) * w)[x] == buf[q * w + x]);
            assert(buf[i] == pixel_spec(f, m, threshold, x as u32, yq));
        }
        assert(buf =~= render_spec(f, m, threshold, width, height));
    }
}

} // verus!
