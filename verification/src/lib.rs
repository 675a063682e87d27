//! Gaussian blur for raster images.
//!
//! The library decodes image bytes, normalizes them to a three-channel
//! 8-bit pixel grid, applies a Gaussian blur of a caller-chosen strength,
//! and encodes the result in the format selected by the destination
//! path's extension. Decoding, filtering and encoding are delegated to
//! the `image` and `imageproc` crates; the pipeline around those calls,
//! the extension dispatch table and the error rules are verified.

pub mod bridge;
pub mod format;
pub mod image_model;
pub mod pipeline;

pub use format::{format_for_path, OutputFormat};
pub use image_model::{ImageModel, RgbImageData};
pub use pipeline::{blur_image_bytes, gaussian_blur, BlurError, DEFAULT_SIGMA};
