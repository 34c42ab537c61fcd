//! Channel remapping for packed RGBA textures: splitting a multi map into one
//! greyscale image per channel, joining four images into one multi map, and
//! rearranging the channels of a normal map.
//!
//! - [`texel`]: pixel values, channels, and the per-pixel channel maps.
//! - [`grid`]: the mathematical model of an image, and what holds of the
//!   transforms on it.
//! - [`raster`]: images kept in the buffers of the `image` crate.
//! - [`transform`]: split, join and fix-normal on images.
//! - [`naming`]: the names of the files that the transforms write.
//! - [`interactive`]: the decisions of the interactive flow.
//! - [`error`]: the reasons for which a request is refused.
//!
//! Reading, decoding, encoding and writing files is left to the caller.

pub mod error;
pub mod grid;
pub mod interactive;
pub mod naming;
pub mod raster;
pub mod texel;
pub mod transform;
