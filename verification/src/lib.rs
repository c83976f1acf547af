//! Edge-preserving bilateral smoothing over 8-bit RGB raster images.
//!
//! The crate verifies the integer spine shared by every execution strategy:
//! the flat image buffer and its row-major addressing, the clamped filter
//! window, the squared colour distance, the device launch geometry, the typed
//! kernel binding, and the device-filter lifecycle. The floating-point
//! weighting itself, thread scheduling and file handling live with the
//! unverified callers of this library.

pub mod binding;
pub mod codec;
pub mod device;
pub mod filter;
pub mod grid;
pub mod image;
pub mod window;

pub use image::{Image, Pixel};
