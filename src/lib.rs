//! The decisions of a Monte Carlo path tracer, and image storage with
//! plain-text PPM encoding.
//!
//! Rendering works on real-valued colours. This library decides, for each ray,
//! whether its path ends in black, ends in the sky or bounces on with a smaller
//! budget; and, once a colour has been quantised to integer channels, it keeps
//! the pixel grid in row-major order and produces the exact bytes of the `P3`
//! image file.

mod image;
mod integrator;
mod ppm;

pub use image::{Image, Rgb, black, pixel_index};
pub use integrator::{PathStep, path_step, step_of, bounces, lemma_depth_bounds_bounces};
pub use ppm::{decimal, signed_decimal, ppm_header, ppm_pixel, ppm_body, ppm_file};
