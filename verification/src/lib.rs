//! Escape-time rendering of Julia sets.
//!
//! The crate computes, for each pixel of an image, how many applications of a
//! complex step function are needed before the orbit of the pixel's sample
//! point leaves a bounded region, capped by an iteration bound. Pixel
//! coordinates are mapped onto the complex plane by a viewport mapper, rows
//! are handed out by a claimable cursor, and the renderers assemble the
//! per-pixel counts into a row-major grayscale buffer.

pub mod colorize;
pub mod complex;
pub mod double;
pub mod escape;
pub mod interpolate;
pub mod iter;
pub mod lerp;
pub mod partition;
pub mod render;

pub use double::Real;
pub use complex::Complex;
pub use escape::{StepFn, JuliaStep, applications_until, default_julia};
pub use interpolate::{PixelMapper, interpolate_rectilinear, interpolate_stretch};
pub use partition::RowCursor;
pub use render::{RenderError, compute_row, render_rows, sequential_image};
