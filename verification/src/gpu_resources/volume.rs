//! The density volume: a cube-shaped texture and its sampler.

use vstd::prelude::*;
use crate::gpu::AddressMode;
use crate::gpu::BindingResource;
use crate::gpu::Extent3d;
use crate::gpu::FilterMode;
use crate::gpu::ImageDataLayout;
use crate::gpu::SamplerDescriptor;
use crate::gpu::SamplerId;
use crate::gpu::ShaderStages;
use crate::gpu::TextureDescriptor;
use crate::gpu::TextureDimension;
use crate::gpu::TextureFormat;
use crate::gpu::TextureUpload;
use crate::gpu::TextureUsages;
use crate::gpu::TextureViewDimension;
use crate::gpu::TextureViewId;
use crate::gpu_resources::texture::make_sampled_texture_entries;
use crate::gpu_resources::texture::make_sampled_texture_resources;
use crate::gpu_resources::texture::sampled_texture_entries;
use crate::gpu_resources::texture::sampled_texture_resources;
use crate::gpu_resources::texture::uniform_sampler;
use crate::gpu_resources::BindGroupLayoutEntryUnbound;
use crate::gpu_resources::ToGpuResources;
use crate::volume_data::fit_volume;
use crate::volume_data::volume_bytes;
use crate::volume_data::FlipMode;
use crate::volume_data::VOLUME_SIDE;

verus! {

/// The extent of the volume cube.
pub open spec fn volume_extent() -> Extent3d {
    Extent3d { width: VOLUME_SIDE, height: VOLUME_SIDE, depth_or_array_layers: VOLUME_SIDE }
}

/// What a one-byte-per-voxel cube texture named `label` looks like.
pub open spec fn cube_texture(label: Seq<char>, desc: TextureDescriptor) -> bool {
    &&& desc.label@ == label
    &&& desc.size == volume_extent()
    &&& desc.mip_level_count == 1
    &&& desc.sample_count == 1
    &&& desc.dimension == TextureDimension::D3
    &&& desc.format == TextureFormat::R8Unorm
    &&& desc.usage == (TextureUsages {
        copy_src: false,
        copy_dst: true,
        texture_binding: true,
        storage_binding: false,
        render_attachment: false,
    })
}

/// Describes a one-byte-per-voxel cube texture named `label`, which can be
/// copied into and sampled.
pub fn make_cube_texture(label: &str) -> (desc: TextureDescriptor)
    ensures
        cube_texture(label@, desc),
{
    TextureDescriptor {
        label: label.to_owned(),
        size: Extent3d {
            width: VOLUME_SIDE,
            height: VOLUME_SIDE,
            depth_or_array_layers: VOLUME_SIDE,
        },
        mip_level_count: 1,
        sample_count: 1,
        dimension: TextureDimension::D3,
        format: TextureFormat::R8Unorm,
        usage: TextureUsages {
            copy_src: false,
            copy_dst: true,
            texture_binding: true,
            storage_binding: false,
            render_attachment: false,
        },
    }
}

/// The upload that fills a cube texture with `cube`, one byte per voxel, rows
/// and slices tightly packed.
pub fn cube_upload(cube: Vec<u8>) -> (upload: TextureUpload)
    requires
        cube@.len() == crate::volume_data::VOLUME_LEN,
    ensures
        upload.data@ == cube@,
        upload.size == volume_extent(),
        upload.layout == (ImageDataLayout {
            offset: 0,
            bytes_per_row: Some(VOLUME_SIDE),
            rows_per_image: Some(VOLUME_SIDE),
        }),
        upload.covers(TextureFormat::R8Unorm),
{
    assert((256 as nat) * (256 as nat) * (256 as nat) == 16777216) by (nonlinear_arith);
    TextureUpload {
        data: cube,
        layout: ImageDataLayout {
            offset: 0,
            bytes_per_row: Some(VOLUME_SIDE),
            rows_per_image: Some(VOLUME_SIDE),
        },
        size: Extent3d {
            width: VOLUME_SIDE,
            height: VOLUME_SIDE,
            depth_or_array_layers: VOLUME_SIDE,
        },
    }
}

/// The density volume as the compute pass samples it.
#[derive(Debug, Clone, Copy, PartialEq, Eq)]
pub struct GpuVolume {
    texture_view: TextureViewId,
    sampler: SamplerId,
}

impl GpuVolume {
    /// The view behind the texture binding.
    pub closed spec fn view(&self) -> TextureViewId {
        self.texture_view
    }

    /// The sampler behind the sampler binding.
    pub closed spec fn sampler(&self) -> SamplerId {
        self.sampler
    }

    /// Describes the texture to create: the volume cube, one byte per voxel.
    pub fn texture_descriptor() -> (desc: TextureDescriptor)
        ensures
            cube_texture("Volume Texture"@, desc),
            Self::layout_entries()[0].ty.fits_texture(desc),
    {
        make_cube_texture("Volume Texture")
    }

    /// Describes the sampler to create: clamped at the edges, taking the
    /// nearest voxel.
    pub fn sampler_descriptor() -> (desc: SamplerDescriptor)
        ensures
            desc.label@ == "Volume Sampler"@,
            desc.address_mode_u == AddressMode::ClampToEdge,
            desc.address_mode_v == AddressMode::ClampToEdge,
            desc.address_mode_w == AddressMode::ClampToEdge,
            desc.mag_filter == FilterMode::Nearest,
            desc.min_filter == FilterMode::Nearest,
            desc.mipmap_filter == FilterMode::Nearest,
            Self::layout_entries()[1].ty.fits_sampler(desc),
    {
        uniform_sampler("Volume Sampler", AddressMode::ClampToEdge, FilterMode::Nearest)
    }

    /// The upload that fills the volume texture from the raw voxel stream
    /// `data`: the stream is cut or zero-filled to the cube's size, mirrored if
    /// `flip_mode` asks for it, and laid out to cover the texture exactly.
    pub fn upload(data: Vec<u8>, flip_mode: FlipMode) -> (upload: TextureUpload)
        ensures
            upload.data@ == volume_bytes(data@, flip_mode),
            upload.size == volume_extent(),
            upload.covers(TextureFormat::R8Unorm),
    {
        cube_upload(fit_volume(data, flip_mode))
    }

    /// The volume resource over the live `texture_view` and `sampler`.
    pub fn init(texture_view: TextureViewId, sampler: SamplerId) -> (volume: Self)
        ensures
            volume.view() == texture_view,
            volume.sampler() == sampler,
    {
        GpuVolume { texture_view, sampler }
    }
}

impl ToGpuResources for GpuVolume {
    open spec fn layout_entries() -> Seq<BindGroupLayoutEntryUnbound> {
        sampled_texture_entries(
            ShaderStages { vertex: false, fragment: false, compute: true },
            TextureViewDimension::D3,
        )
    }

    closed spec fn gpu_resources(&self) -> Seq<BindingResource> {
        sampled_texture_resources(self.texture_view, self.sampler)
    }

    proof fn lemma_contribution_matches(&self) {
    }

    fn bind_group_layout_entries() -> (entries: Vec<BindGroupLayoutEntryUnbound>) {
        make_sampled_texture_entries(ShaderStages::compute(), TextureViewDimension::D3)
    }

    fn to_gpu_resources(&self) -> (resources: Vec<BindingResource>)
        ensures
            resources@ == sampled_texture_resources(self.view(), self.sampler()),
    {
        make_sampled_texture_resources(self.texture_view, self.sampler)
    }
}

} // verus!
