//! The renderers: sequential against row-claiming and against a real
//! multi-threaded worker pool.

use std::sync::atomic::AtomicUsize;
use std::sync::atomic::Ordering;
use std::sync::Mutex;

use julia_set::compute_row;
use julia_set::interpolate_stretch;
use julia_set::render_rows;
use julia_set::sequential_image;
use julia_set::JuliaStep;
use julia_set::PixelMapper;
use julia_set::Real;
use julia_set::RenderError;

fn r(x: f64) -> Real {
    Real::from_bits(x.to_bits())
}

/// The parallel assembly: a fixed pool of workers pulling rows from a shared
/// atomic cursor, each writing its finished row at the row's fixed offset.
fn parallel_image(
    width: u32,
    height: u32,
    step: &JuliaStep,
    mapper: &PixelMapper,
    threshold: Real,
    workers: usize,
) -> Vec<u8> {
    let buffer = Mutex::new(vec![0_u8; (width as usize) * (height as usize)]);
    let cursor = AtomicUsize::new(0);

    crossbeam::thread::scope(|scope| {
        for _ in 0..workers {
            scope.spawn(|_| {
                loop {
                    let y = cursor.fetch_add(1, Ordering::SeqCst);
                    if y >= height as usize {
                        break;
                    }
                    let row = compute_row(step, mapper, threshold, width, y as u32);
                    let start = y * width as usize;
                    let end = (y + 1) * width as usize;
                    buffer.lock().unwrap()[start..end].clone_from_slice(&row);
                }
            });
        }
    })
    .unwrap();

    buffer.into_inner().unwrap()
}

#[test]
fn test_serial_parallel_agree() {
    let (width, height) = (200, 200);
    let threshold = r(2.0);
    let step = JuliaStep::default_c();
    let mapper = interpolate_stretch(width, height, r(-1.0), r(1.0), r(-1.0), r(1.0));

    let sequential = sequential_image(width, height, &step, &mapper, threshold).unwrap();
    let parallel = parallel_image(width, height, &step, &mapper, threshold, 4);

    assert_eq!(sequential.len(), 200 * 200);
    assert!(parallel.iter().zip(sequential.iter()).all(|(p, s)| p == s));
}

#[test]
fn test_row_claiming_renderer_agrees() {
    let (width, height): (u32, u32) = (64, 33);
    let threshold = r(2.0);
    let step = JuliaStep::default_c();
    let mapper = interpolate_stretch(width, height, r(-1.0), r(1.0), r(-1.0), r(1.0));

    let sequential = sequential_image(width, height, &step, &mapper, threshold).unwrap();
    let by_rows = render_rows(width, height, &step, &mapper, threshold).unwrap();
    assert_eq!(sequential, by_rows);
}

#[test]
fn test_rows_concatenate_to_image() {
    let (width, height): (u32, u32) = (31, 7);
    let threshold = r(1.5);
    let step = JuliaStep::default_c();
    let mapper = interpolate_stretch(width, height, r(-1.0), r(1.0), r(-1.0), r(1.0));

    let whole = sequential_image(width, height, &step, &mapper, threshold).unwrap();
    let mut stitched: Vec<u8> = Vec::new();
    for y in 0..height {
        stitched.extend(compute_row(&step, &mapper, threshold, width, y));
    }
    assert_eq!(whole, stitched);
}

#[test]
fn test_zero_dimension_rejected() {
    let step = JuliaStep::default_c();
    let mapper = interpolate_stretch(0, 10, r(-1.0), r(1.0), r(-1.0), r(1.0));
    assert_eq!(
        sequential_image(0, 10, &step, &mapper, r(2.0)),
        Err(RenderError::InvalidDimension)
    );
    assert_eq!(
        sequential_image(10, 0, &step, &mapper, r(2.0)),
        Err(RenderError::InvalidDimension)
    );
    assert_eq!(render_rows(0, 10, &step, &mapper, r(2.0)), Err(RenderError::InvalidDimension));
    assert_eq!(render_rows(10, 0, &step, &mapper, r(2.0)), Err(RenderError::InvalidDimension));
}

/// Pixel values are escape counts: a viewport far outside the threshold
/// circle renders to zeros, and a never-diverging step saturates at 255.
#[test]
fn test_pixel_value_extremes() {
    let step = JuliaStep::default_c();
    let far = interpolate_stretch(4, 4, r(50.0), r(60.0), r(50.0), r(60.0));
    assert!(sequential_image(4, 4, &step, &far, r(2.0)).unwrap().iter().all(|&p| p == 0));

    let fixed = JuliaStep::new(julia_set::Complex::from_bits(0, 0));
    let origin = interpolate_stretch(3, 3, r(0.0), r(0.0), r(0.0), r(0.0));
    assert!(sequential_image(3, 3, &fixed, &origin, r(2.0)).unwrap().iter().all(|&p| p == 255));
}
