//! A surface-sized storage texture for values that help debugging a shader.

use vstd::prelude::*;
use crate::gpu::BindingResource;
use crate::gpu::Extent3d;
use crate::gpu::TextureDescriptor;
use crate::gpu::TextureDimension;
use crate::gpu::TextureFormat;
use crate::gpu::TextureUsages;
use crate::gpu::TextureViewId;
use crate::gpu_context::GpuContext;
use crate::gpu_resources::output_texture::make_write_only_storage_entry;
use crate::gpu_resources::output_texture::write_only_storage_entry;
use crate::gpu_resources::BindGroupLayoutEntryUnbound;
use crate::gpu_resources::ToGpuResources;

verus! {

/// The view of the debug texture.
#[derive(Debug, Clone, Copy, PartialEq, Eq)]
pub struct GpuDebugMatrix {
    texture_view: TextureViewId,
}

impl GpuDebugMatrix {
    /// The view behind the binding.
    pub closed spec fn view(&self) -> TextureViewId {
        self.texture_view
    }

    /// Describes the texture to create: one RGBA texel for every pixel of the
    /// surface as it is configured now. After a resize the texture has to be
    /// created again from a new description.
    pub fn texture_descriptor(ctx: &GpuContext) -> (desc: TextureDescriptor)
        ensures
            desc.label@ == "Debug Matrix Texture"@,
            desc.size == (Extent3d {
                width: ctx.surface_config.width,
                height: ctx.surface_config.height,
                depth_or_array_layers: 1,
            }),
            desc.mip_level_count == 1,
            desc.sample_count == 1,
            desc.dimension == TextureDimension::D2,
            desc.format == TextureFormat::Rgba8Unorm,
            desc.usage == (TextureUsages {
                copy_src: false,
                copy_dst: true,
                texture_binding: true,
                storage_binding: true,
                render_attachment: false,
            }),
            Self::layout_entries()[0].ty.fits_texture(desc),
    {
        TextureDescriptor {
            label: "Debug Matrix Texture".to_owned(),
            size: Extent3d {
                width: ctx.surface_config.width,
                height: ctx.surface_config.height,
                depth_or_array_layers: 1,
            },
            mip_level_count: 1,
            sample_count: 1,
            dimension: TextureDimension::D2,
            format: TextureFormat::Rgba8Unorm,
            usage: TextureUsages {
                copy_src: false,
                copy_dst: true,
                texture_binding: true,
                storage_binding: true,
                render_attachment: false,
            },
        }
    }

    /// The debug resource over `texture_view`, a view of the texture created
    /// from [`GpuDebugMatrix::texture_descriptor`].
    pub fn new(texture_view: TextureViewId) -> (debug_matrix: Self)
        ensures
            debug_matrix.view() == texture_view,
    {
        GpuDebugMatrix { texture_view }
    }
}

impl ToGpuResources for GpuDebugMatrix {
    open spec fn layout_entries() -> Seq<BindGroupLayoutEntryUnbound> {
        seq![write_only_storage_entry()]
    }

    closed spec fn gpu_resources(&self) -> Seq<BindingResource> {
        seq![BindingResource::TextureView(self.texture_view)]
    }

    proof fn lemma_contribution_matches(&self) {
    }

    fn bind_group_layout_entries() -> (entries: Vec<BindGroupLayoutEntryUnbound>) {
        let mut entries: Vec<BindGroupLayoutEntryUnbound> = Vec::new();
        entries.push(make_write_only_storage_entry());
        assert(entries@ =~= Self::layout_entries());
        entries
    }

    fn to_gpu_resources(&self) -> (resources: Vec<BindingResource>)
        ensures
            resources@ == seq![BindingResource::TextureView(self.view())],
    {
        let mut resources: Vec<BindingResource> = Vec::new();
        resources.push(BindingResource::TextureView(self.texture_view));
        assert(resources@ =~= self.gpu_resources());
        resources
    }
}

} // verus!
