//! An image used as a texture: a raster of eight-bit RGB samples.
//!
//! Decoding an image file is input work that stays outside the library; the
//! constructor takes the already-decoded raster.

use vstd::prelude::*;
use std::sync::Arc;

verus! {

#[derive(Clone, Debug)]
pub struct Image {
    pub width: u32,
    pub height: u32,
    pub pixels: Arc<Vec<u8>>,
}

/// A usable raster: three bytes per pixel, and small enough that every index
/// computation stays in range.
pub open spec fn image_wf(img: Image) -> bool {
    img.pixels@.len() == 3 * (img.width as int) * (img.height as int) && img.width < 0x10000
        && img.height < 0x10000
}

impl Image {
    /// An image texture over a decoded raster of `3 * width * height` bytes,
    /// rows from the top, three bytes per pixel.
    pub fn new(width: u32, height: u32, pixels: Vec<u8>) -> (r: Self)
        requires
            pixels@.len() == 3 * (width as int) * (height as int),
            width < 0x10000,
            height < 0x10000,
        ensures
            image_wf(r),
            r.width == width,
            r.height == height,
            r.pixels@ == pixels@,
    {
        Image { width, height, pixels: Arc::new(pixels) }
    }
}

} // verus!
