//! The presentable surface: its size and how it follows the window.

use vstd::prelude::*;
use crate::gpu::TextureFormat;

verus! {

/// A size in physical pixels.
#[derive(Debug, Clone, Copy, PartialEq, Eq)]
pub struct PhysicalSize {
    pub width: u32,
    pub height: u32,
}

/// How the surface is configured.
#[derive(Debug, Clone, Copy, PartialEq, Eq)]
pub struct SurfaceConfiguration {
    pub format: TextureFormat,
    pub width: u32,
    pub height: u32,
}

/// What the renderer knows of the device's surface.
#[derive(Debug, Clone, Copy, PartialEq, Eq)]
pub struct GpuContext {
    pub surface_config: SurfaceConfiguration,
    pub size: PhysicalSize,
}

impl GpuContext {
    /// The surface is configured for exactly the window's size.
    pub open spec fn wf(&self) -> bool {
        &&& self.surface_config.width == self.size.width
        &&& self.surface_config.height == self.size.height
    }

    /// A context for a window of `size`, presenting in `format`.
    pub fn new(size: PhysicalSize, format: TextureFormat) -> (ctx: Self)
        ensures
            ctx.wf(),
            ctx.size == size,
            ctx.surface_config.format == format,
    {
        GpuContext {
            surface_config: SurfaceConfiguration { format, width: size.width, height: size.height },
            size,
        }
    }

    /// Follows the window to `new_size`. A size with a zero side, as a
    /// minimised window reports, is ignored. Returns whether the surface has to
    /// be configured again.
    pub fn resize(&mut self, new_size: PhysicalSize) -> (reconfigure: bool)
        ensures
            reconfigure == (new_size.width > 0 && new_size.height > 0),
            reconfigure ==> final(self).size == new_size && final(self).wf(),
            !reconfigure ==> *final(self) == *old(self),
            old(self).wf() ==> final(self).wf(),
            final(self).surface_config.format == old(self).surface_config.format,
    {
        if new_size.width > 0 && new_size.height > 0 {
            self.size = new_size;
            self.surface_config.width = new_size.width;
            self.surface_config.height = new_size.height;
            true
        } else {
            false
        }
    }

    /// Whether the `index`-th of `formats` is the first sRGB format among
    /// them.
    pub open spec fn first_srgb_at(formats: Seq<TextureFormat>, index: int) -> bool {
        &&& 0 <= index < formats.len()
        &&& formats[index].spec_is_srgb()
        &&& forall|i: int| 0 <= i < index ==> !(#[trigger] formats[i]).spec_is_srgb()
    }

    /// Of the formats that a surface offers, the one to present in: the first
    /// sRGB format, or the first format of all where none is sRGB.
    pub fn preferred_format(formats: &[TextureFormat]) -> (format: TextureFormat)
        requires
            formats@.len() > 0,
        ensures
            format.spec_is_srgb() ==> exists|index: int|
                Self::first_srgb_at(formats@, index) && formats@[index] == format,
            !format.spec_is_srgb() ==> format == formats@[0] && forall|i: int|
                0 <= i < formats@.len() ==> !(#[trigger] formats@[i]).spec_is_srgb(),
    {
        let mut i: usize = 0;
        while i < formats.len()
            invariant
                i <= formats@.len(),
                forall|k: int| 0 <= k < i ==> !(#[trigger] formats@[k]).spec_is_srgb(),
            decreases formats@.len() - i,
        {
            if formats[i].is_srgb() {
                assert(Self::first_srgb_at(formats@, i as int));
                return formats[i];
            }
            i += 1;
        }
        formats[0]
    }
}

} // verus!
