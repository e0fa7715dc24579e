//! The transfer function as the shader samples it: a one-row texture with one
//! RGBA texel for each density level.

use vstd::prelude::*;
use crate::gpu::AddressMode;
use crate::gpu::BindingResource;
use crate::gpu::Extent3d;
use crate::gpu::FilterMode;
use crate::gpu::ImageDataLayout;
use crate::gpu::SamplerDescriptor;
use crate::gpu::SamplerId;
use crate::gpu::ShaderStages;
use crate::gpu::TextureDescriptor;
use crate::gpu::TextureDimension;
use crate::gpu::TextureFormat;
use crate::gpu::TextureUpload;
use crate::gpu::TextureUsages;
use crate::gpu::TextureViewDimension;
use crate::gpu::TextureViewId;
use crate::gpu_resources::texture::make_sampled_texture_entries;
use crate::gpu_resources::texture::make_sampled_texture_resources;
use crate::gpu_resources::texture::sampled_texture_entries;
use crate::gpu_resources::texture::sampled_texture_resources;
use crate::gpu_resources::texture::uniform_sampler;
use crate::gpu_resources::BindGroupLayoutEntryUnbound;
use crate::gpu_resources::ToGpuResources;

verus! {

/// A colour with opacity, one byte per channel.
#[derive(Debug, Clone, Copy, PartialEq, Eq, Hash)]
pub struct Rgba8 {
    pub r: u8,
    pub g: u8,
    pub b: u8,
    pub a: u8,
}

impl Rgba8 {
    /// Channel `c` of the colour: red, green, blue, then opacity.
    pub open spec fn channel(self, c: int) -> u8 {
        if c == 0 {
            self.r
        } else if c == 1 {
            self.g
        } else if c == 2 {
            self.b
        } else {
            self.a
        }
    }
}

/// The bytes of a row of texels: four for each texel, in the texels' order.
pub open spec fn texel_bytes(texels: Seq<Rgba8>) -> Seq<u8> {
    Seq::new(4 * texels.len(), |i: int| texels[i / 4].channel(i % 4))
}

/// The transfer function as the compute pass samples it.
#[derive(Debug, Clone, Copy, PartialEq, Eq)]
pub struct GPUTransferFunction {
    texture_view: TextureViewId,
    sampler: SamplerId,
}

impl GPUTransferFunction {
    /// The view behind the texture binding.
    pub closed spec fn view(&self) -> TextureViewId {
        self.texture_view
    }

    /// The sampler behind the sampler binding.
    pub closed spec fn sampler(&self) -> SamplerId {
        self.sampler
    }

    /// Describes the texture to create for a transfer function over the
    /// density levels `0..=max_density`: one row with one RGBA texel for each
    /// level.
    pub fn texture_descriptor(max_density: u32) -> (desc: TextureDescriptor)
        requires
            max_density < u32::MAX,
        ensures
            desc.label@ == "Transfer Function 1D Texture"@,
            desc.size == (Extent3d {
                width: (max_density + 1) as u32,
                height: 1,
                depth_or_array_layers: 1,
            }),
            desc.mip_level_count == 1,
            desc.sample_count == 1,
            desc.dimension == TextureDimension::D1,
            desc.format == TextureFormat::Rgba8Unorm,
            desc.usage == (TextureUsages {
                copy_src: false,
                copy_dst: true,
                texture_binding: true,
                storage_binding: false,
                render_attachment: false,
            }),
            Self::layout_entries()[0].ty.fits_texture(desc),
    {
        TextureDescriptor {
            label: "Transfer Function 1D Texture".to_owned(),
            size: Extent3d { width: max_density + 1, height: 1, depth_or_array_layers: 1 },
            mip_level_count: 1,
            sample_count: 1,
            dimension: TextureDimension::D1,
            format: TextureFormat::Rgba8Unorm,
            usage: TextureUsages {
                copy_src: false,
                copy_dst: true,
                texture_binding: true,
                storage_binding: false,
                render_attachment: false,
            },
        }
    }

    /// Describes the sampler to create: clamped at the edges, blending
    /// linearly between neighbouring density levels.
    pub fn sampler_descriptor() -> (desc: SamplerDescriptor)
        ensures
            desc.label@ == "Transfer Function Sampler"@,
            desc.address_mode_u == AddressMode::ClampToEdge,
            desc.address_mode_v == AddressMode::ClampToEdge,
            desc.address_mode_w == AddressMode::ClampToEdge,
            desc.mag_filter == FilterMode::Linear,
            desc.min_filter == FilterMode::Linear,
            desc.mipmap_filter == FilterMode::Linear,
            Self::layout_entries()[1].ty.fits_sampler(desc),
    {
        uniform_sampler("Transfer Function Sampler", AddressMode::ClampToEdge, FilterMode::Linear)
    }

    /// The upload that bakes the transfer function into its texture:
    /// `texels[i]` is the colour of density level `i`, and the bytes of all
    /// levels form the single row of the texture.
    pub fn upload(texels: &[Rgba8]) -> (upload: TextureUpload)
        requires
            4 * texels@.len() <= u32::MAX,
        ensures
            upload.data@ == texel_bytes(texels@),
            upload.size == (Extent3d {
                width: texels@.len() as u32,
                height: 1,
                depth_or_array_layers: 1,
            }),
            upload.layout == (ImageDataLayout {
                offset: 0,
                bytes_per_row: Some((4 * texels@.len()) as u32),
                rows_per_image: Some(1),
            }),
            upload.covers(TextureFormat::Rgba8Unorm),
    {
        let tf_size: usize = texels.len();
        let mut texture_data: Vec<u8> = Vec::new();
        let mut i: usize = 0;
        while i < tf_size
            invariant
                tf_size == texels@.len(),
                4 * tf_size <= u32::MAX,
                i <= tf_size,
                texture_data@ == texel_bytes(texels@.subrange(0, i as int)),
            decreases tf_size - i,
        {
            let texel: Rgba8 = texels[i];
            texture_data.push(texel.r);
            texture_data.push(texel.g);
            texture_data.push(texel.b);
            texture_data.push(texel.a);
            i += 1;
            assert(texture_data@ =~= texel_bytes(texels@.subrange(0, i as int)));
        }
        assert(texels@.subrange(0, i as int) =~= texels@);
        let width: u32 = tf_size as u32;
        assert((width as nat) * (1 as nat) * (1 as nat) * 4 == 4 * tf_size) by (nonlinear_arith)
            requires
                width == tf_size,
        ;
        TextureUpload {
            data: texture_data,
            layout: ImageDataLayout {
                offset: 0,
                bytes_per_row: Some(width * 4),
                rows_per_image: Some(1),
            },
            size: Extent3d { width, height: 1, depth_or_array_layers: 1 },
        }
    }

    /// The transfer-function resource over the live `texture_view` and
    /// `sampler`.
    pub fn new_texture_1d_rgbt(texture_view: TextureViewId, sampler: SamplerId) -> (tf: Self)
        ensures
            tf.view() == texture_view,
            tf.sampler() == sampler,
    {
        GPUTransferFunction { texture_view, sampler }
    }
}

impl ToGpuResources for GPUTransferFunction {
    open spec fn layout_entries() -> Seq<BindGroupLayoutEntryUnbound> {
        sampled_texture_entries(
            ShaderStages { vertex: false, fragment: false, compute: true },
            TextureViewDimension::D1,
        )
    }

    closed spec fn gpu_resources(&self) -> Seq<BindingResource> {
        sampled_texture_resources(self.texture_view, self.sampler)
    }

    proof fn lemma_contribution_matches(&self) {
    }

    fn bind_group_layout_entries() -> (entries: Vec<BindGroupLayoutEntryUnbound>) {
        make_sampled_texture_entries(ShaderStages::compute(), TextureViewDimension::D1)
    }

    fn to_gpu_resources(&self) -> (resources: Vec<BindingResource>)
        ensures
            resources@ == sampled_texture_resources(self.view(), self.sampler()),
    {
        make_sampled_texture_resources(self.texture_view, self.sampler)
    }
}

} // verus!
