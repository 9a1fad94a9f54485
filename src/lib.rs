//! Image transformation pipeline: decode, resize to a target width, correct
//! the orientation recorded in EXIF metadata, and encode.
//!
//! Pictures are held as [`raster::Raster`] values of RGBA pixels. The
//! geometric operations, the orientation table, the size arithmetic and the
//! pipeline's decisions are verified; decoding, resampling, encoding and EXIF
//! parsing are calls into the `image` and `exif` crates. The contracts in
//! `codec` name what decoding, encoding and EXIF parsing return; of a
//! resample only the size is stated, since its pixels depend on
//! floating-point rounding.
pub mod codec;
pub mod error;
pub mod orientation;
pub mod pipeline;
pub mod raster;
pub mod sizing;
