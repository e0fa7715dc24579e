//! Surface-sized textures: written by the compute pass, read by the render
//! pass.

use vstd::prelude::*;
use crate::gpu::AddressMode;
use crate::gpu::BindingResource;
use crate::gpu::BindingType;
use crate::gpu::Extent3d;
use crate::gpu::FilterMode;
use crate::gpu::SamplerBindingType;
use crate::gpu::SamplerDescriptor;
use crate::gpu::SamplerId;
use crate::gpu::ShaderStages;
use crate::gpu::TextureDescriptor;
use crate::gpu::TextureDimension;
use crate::gpu::TextureFormat;
use crate::gpu::TextureId;
use crate::gpu::TextureSampleType;
use crate::gpu::TextureUsages;
use crate::gpu::TextureViewDimension;
use crate::gpu::TextureViewId;
use crate::gpu_context::GpuContext;
use crate::gpu_resources::output_texture::make_write_only_storage_entry;
use crate::gpu_resources::output_texture::write_only_storage_entry;
use crate::gpu_resources::output_texture::GpuOutputTexture;
use crate::gpu_resources::BindGroupLayoutEntryUnbound;
use crate::gpu_resources::ToGpuResources;

verus! {

/// The two layout entries of a texture that is sampled with filtering: the
/// texture, then its sampler, both visible to `visibility`.
pub open spec fn sampled_texture_entries(
    visibility: ShaderStages,
    view_dimension: TextureViewDimension,
) -> Seq<BindGroupLayoutEntryUnbound> {
    seq![
        BindGroupLayoutEntryUnbound {
            visibility,
            ty: BindingType::Texture {
                sample_type: TextureSampleType::Float { filterable: true },
                view_dimension,
                multisampled: false,
            },
            count: None,
        },
        BindGroupLayoutEntryUnbound {
            visibility,
            ty: BindingType::Sampler(SamplerBindingType::Filtering),
            count: None,
        },
    ]
}

/// Builds [`sampled_texture_entries`].
pub fn make_sampled_texture_entries(
    visibility: ShaderStages,
    view_dimension: TextureViewDimension,
) -> (entries: Vec<BindGroupLayoutEntryUnbound>)
    ensures
        entries@ == sampled_texture_entries(visibility, view_dimension),
{
    let mut entries: Vec<BindGroupLayoutEntryUnbound> = Vec::new();
    entries.push(
        BindGroupLayoutEntryUnbound {
            visibility,
            ty: BindingType::Texture {
                sample_type: TextureSampleType::Float { filterable: true },
                view_dimension,
                multisampled: false,
            },
            count: None,
        },
    );
    entries.push(
        BindGroupLayoutEntryUnbound {
            visibility,
            ty: BindingType::Sampler(SamplerBindingType::Filtering),
            count: None,
        },
    );
    assert(entries@ =~= sampled_texture_entries(visibility, view_dimension));
    entries
}

/// The two live objects of a sampled texture: the view, then the sampler.
pub open spec fn sampled_texture_resources(view: TextureViewId, sampler: SamplerId) -> Seq<
    BindingResource,
> {
    seq![BindingResource::TextureView(view), BindingResource::Sampler(sampler)]
}

/// Builds [`sampled_texture_resources`].
pub fn make_sampled_texture_resources(view: TextureViewId, sampler: SamplerId) -> (resources: Vec<
    BindingResource,
>)
    ensures
        resources@ == sampled_texture_resources(view, sampler),
{
    let mut resources: Vec<BindingResource> = Vec::new();
    resources.push(BindingResource::TextureView(view));
    resources.push(BindingResource::Sampler(sampler));
    assert(resources@ =~= sampled_texture_resources(view, sampler));
    resources
}

/// A sampler named `label` that applies `address` along every axis and
/// `filter` for magnifying, minifying and between mip levels.
pub fn uniform_sampler(label: &str, address: AddressMode, filter: FilterMode) -> (desc:
    SamplerDescriptor)
    ensures
        desc.label@ == label@,
        desc.address_mode_u == address,
        desc.address_mode_v == address,
        desc.address_mode_w == address,
        desc.mag_filter == filter,
        desc.min_filter == filter,
        desc.mipmap_filter == filter,
{
    SamplerDescriptor {
        label: label.to_owned(),
        address_mode_u: address,
        address_mode_v: address,
        address_mode_w: address,
        mag_filter: filter,
        min_filter: filter,
        mipmap_filter: filter,
    }
}

/// What a surface-sized render texture looks like for the surface of `ctx`.
pub open spec fn surface_texture(ctx: GpuContext, desc: TextureDescriptor) -> bool {
    &&& desc.label@ == "Render Input Texture"@
    &&& desc.size == (Extent3d {
        width: ctx.surface_config.width,
        height: ctx.surface_config.height,
        depth_or_array_layers: 1,
    })
    &&& desc.mip_level_count == 1
    &&& desc.sample_count == 1
    &&& desc.dimension == TextureDimension::D2
    &&& desc.format == TextureFormat::Rgba8Unorm
    &&& desc.usage == (TextureUsages {
        copy_src: false,
        copy_dst: false,
        texture_binding: true,
        storage_binding: true,
        render_attachment: false,
    })
}

fn make_surface_texture(ctx: &GpuContext) -> (desc: TextureDescriptor)
    ensures
        surface_texture(*ctx, desc),
{
    TextureDescriptor {
        label: "Render Input Texture".to_owned(),
        size: Extent3d {
            width: ctx.surface_config.width,
            height: ctx.surface_config.height,
            depth_or_array_layers: 1,
        },
        mip_level_count: 1,
        sample_count: 1,
        dimension: TextureDimension::D2,
        format: TextureFormat::Rgba8Unorm,
        usage: TextureUsages {
            copy_src: false,
            copy_dst: false,
            texture_binding: true,
            storage_binding: true,
            render_attachment: false,
        },
    }
}

/// A surface-sized texture as the compute pass sees it: a storage texture to
/// write.
#[derive(Debug, Clone, Copy, PartialEq, Eq)]
pub struct GpuWriteTexture2D {
    texture_view: TextureViewId,
    texture: TextureId,
}

/// A surface-sized texture as the render pass sees it: a texture to sample.
#[derive(Debug, Clone, Copy, PartialEq, Eq)]
pub struct GpuReadTexture2D {
    pub texture_view: TextureViewId,
    pub sampler: SamplerId,
    pub texture: TextureId,
}

impl GpuWriteTexture2D {
    /// The view behind the binding.
    pub closed spec fn view(&self) -> TextureViewId {
        self.texture_view
    }

    /// The texture that the view shows.
    pub closed spec fn texture(&self) -> TextureId {
        self.texture
    }

    /// The texture that the view shows.
    pub fn texture_id(&self) -> (texture: TextureId)
        ensures
            texture == self.texture(),
    {
        self.texture
    }

    /// The view behind the binding.
    pub fn view_id(&self) -> (view: TextureViewId)
        ensures
            view == self.view(),
    {
        self.texture_view
    }

    /// Describes the texture to create: one RGBA texel for every pixel of the
    /// surface as it is configured now, usable as a storage texture and as a
    /// sampled one. After a resize the texture has to be created again from a
    /// new description.
    pub fn texture_descriptor(ctx: &GpuContext) -> (desc: TextureDescriptor)
        ensures
            surface_texture(*ctx, desc),
            Self::layout_entries()[0].ty.fits_texture(desc),
            GpuOutputTexture::layout_entries()[0].ty.fits_texture(desc),
            GpuReadTexture2D::layout_entries()[0].ty.fits_texture(desc),
    {
        make_surface_texture(ctx)
    }

    /// The write side of the texture that `read_texture` reads, seen through
    /// the fresh view `texture_view`.
    pub fn from_write_texture_2d(read_texture: GpuReadTexture2D, texture_view: TextureViewId) -> (write:
        Self)
        ensures
            write.texture() == read_texture.texture,
            write.view() == texture_view,
    {
        GpuWriteTexture2D { texture_view, texture: read_texture.texture }
    }

    /// The read side of this texture, seen through the fresh view
    /// `texture_view` and sampled with `sampler`.
    pub fn into_write_texture_2d(self, texture_view: TextureViewId, sampler: SamplerId) -> (read:
        GpuReadTexture2D)
        ensures
            read.texture == self.texture(),
            read.texture_view == texture_view,
            read.sampler == sampler,
    {
        GpuReadTexture2D { texture_view, sampler, texture: self.texture }
    }

    /// The write texture over the live `texture`, seen through `texture_view`.
    pub fn new(texture: TextureId, texture_view: TextureViewId) -> (write: Self)
        ensures
            write.texture() == texture,
            write.view() == texture_view,
    {
        GpuWriteTexture2D { texture_view, texture }
    }
}

impl ToGpuResources for GpuWriteTexture2D {
    open spec fn layout_entries() -> Seq<BindGroupLayoutEntryUnbound> {
        seq![write_only_storage_entry()]
    }

    closed spec fn gpu_resources(&self) -> Seq<BindingResource> {
        seq![BindingResource::TextureView(self.texture_view)]
    }

    proof fn lemma_contribution_matches(&self) {
    }

    fn bind_group_layout_entries() -> (entries: Vec<BindGroupLayoutEntryUnbound>) {
        let mut entries: Vec<BindGroupLayoutEntryUnbound> = Vec::new();
        entries.push(make_write_only_storage_entry());
        assert(entries@ =~= Self::layout_entries());
        entries
    }

    fn to_gpu_resources(&self) -> (resources: Vec<BindingResource>)
        ensures
            resources@ == seq![BindingResource::TextureView(self.view())],
    {
        let mut resources: Vec<BindingResource> = Vec::new();
        resources.push(BindingResource::TextureView(self.texture_view));
        assert(resources@ =~= self.gpu_resources());
        resources
    }
}

impl GpuReadTexture2D {
    /// Describes the texture to create (see
    /// [`GpuWriteTexture2D::texture_descriptor`]).
    pub fn texture_descriptor(ctx: &GpuContext) -> (desc: TextureDescriptor)
        ensures
            surface_texture(*ctx, desc),
            Self::layout_entries()[0].ty.fits_texture(desc),
            GpuWriteTexture2D::layout_entries()[0].ty.fits_texture(desc),
    {
        make_surface_texture(ctx)
    }

    /// Describes the sampler to create: clamped at the edges, blending
    /// linearly.
    pub fn sampler_descriptor() -> (desc: SamplerDescriptor)
        ensures
            desc.label@ == "Sampler"@,
            desc.address_mode_u == AddressMode::ClampToEdge,
            desc.address_mode_v == AddressMode::ClampToEdge,
            desc.address_mode_w == AddressMode::ClampToEdge,
            desc.mag_filter == FilterMode::Linear,
            desc.min_filter == FilterMode::Linear,
            desc.mipmap_filter == FilterMode::Linear,
            Self::layout_entries()[1].ty.fits_sampler(desc),
    {
        uniform_sampler("Sampler", AddressMode::ClampToEdge, FilterMode::Linear)
    }

    /// The read side of the texture that `write_texture` writes, seen through
    /// the fresh view `texture_view` and sampled with `sampler`.
    pub fn from_write_texture_2d(
        write_texture: GpuWriteTexture2D,
        texture_view: TextureViewId,
        sampler: SamplerId,
    ) -> (read: Self)
        ensures
            read.texture == write_texture.texture(),
            read.texture_view == texture_view,
            read.sampler == sampler,
    {
        GpuReadTexture2D { texture_view, sampler, texture: write_texture.texture }
    }

    /// The write side of this texture, seen through the fresh view
    /// `texture_view`.
    pub fn into_write_texture_2d(self, texture_view: TextureViewId) -> (write: GpuWriteTexture2D)
        ensures
            write.texture() == self.texture,
            write.view() == texture_view,
    {
        GpuWriteTexture2D { texture_view, texture: self.texture }
    }

    /// The read texture over the live `texture`, seen through `texture_view`
    /// and sampled with `sampler`.
    pub fn new(texture: TextureId, texture_view: TextureViewId, sampler: SamplerId) -> (read: Self)
        ensures
            read.texture == texture,
            read.texture_view == texture_view,
            read.sampler == sampler,
    {
        GpuReadTexture2D { texture_view, sampler, texture }
    }
}

impl ToGpuResources for GpuReadTexture2D {
    open spec fn layout_entries() -> Seq<BindGroupLayoutEntryUnbound> {
        sampled_texture_entries(
            ShaderStages { vertex: false, fragment: true, compute: true },
            TextureViewDimension::D2,
        )
    }

    open spec fn gpu_resources(&self) -> Seq<BindingResource> {
        sampled_texture_resources(self.texture_view, self.sampler)
    }

    proof fn lemma_contribution_matches(&self) {
    }

    fn bind_group_layout_entries() -> (entries: Vec<BindGroupLayoutEntryUnbound>) {
        make_sampled_texture_entries(
            ShaderStages::fragment().union(ShaderStages::compute()),
            TextureViewDimension::D2,
        )
    }

    fn to_gpu_resources(&self) -> (resources: Vec<BindingResource>) {
        make_sampled_texture_resources(self.texture_view, self.sampler)
    }
}

} // verus!
