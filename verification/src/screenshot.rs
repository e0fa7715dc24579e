//! Copying the surface out to a picture.

use vstd::prelude::*;
use crate::gpu::Extent3d;
use crate::gpu::ImageDataLayout;

verus! {

/// Bytes of one pixel of a picture: red, green, blue and opacity.
pub const BYTES_PER_PIXEL: u32 = 4;

/// How a surface texture is copied into a buffer that is read back as a
/// picture.
#[derive(Debug, Clone, Copy, PartialEq, Eq)]
pub struct ScreenshotCopy {
    /// The size of the buffer to copy into, in bytes.
    pub buffer_size: u64,
    /// How the copied pixels lie in the buffer.
    pub layout: ImageDataLayout,
    /// What is copied: the whole surface texture.
    pub extent: Extent3d,
}

/// Plans the copy of a surface texture of `width` by `height` pixels: the
/// rows follow one another without padding, four bytes to the pixel, and the
/// buffer holds exactly the picture.
pub fn screenshot_copy(width: u32, height: u32) -> (copy: ScreenshotCopy)
    requires
        width * height * BYTES_PER_PIXEL <= u32::MAX,
        BYTES_PER_PIXEL * width <= u32::MAX,
    ensures
        copy.buffer_size == width * height * BYTES_PER_PIXEL,
        copy.layout == (ImageDataLayout {
            offset: 0,
            bytes_per_row: Some((BYTES_PER_PIXEL * width) as u32),
            rows_per_image: Some(height),
        }),
        copy.extent == (Extent3d { width, height, depth_or_array_layers: 1 }),
{
    let pixels: u64 = width as u64 * height as u64;
    proof {
        assert(width * height * BYTES_PER_PIXEL == pixels * 4) by (nonlinear_arith)
            requires
                pixels == width * height,
                BYTES_PER_PIXEL == 4,
        ;
    }
    ScreenshotCopy {
        buffer_size: pixels * BYTES_PER_PIXEL as u64,
        layout: ImageDataLayout {
            offset: 0,
            bytes_per_row: Some(BYTES_PER_PIXEL * width),
            rows_per_image: Some(height),
        },
        extent: Extent3d { width, height, depth_or_array_layers: 1 },
    }
}

} // verus!
