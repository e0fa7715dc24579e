//! Plain-value descriptions of GPU objects.
//!
//! Nothing here touches a device. Every type is ordinary data that says what a
//! GPU object looks like (a binding, a layout, a bind group, an upload), so that
//! the rules that relate them can be stated and proved. The application turns
//! these descriptions into live objects.

use vstd::prelude::*;

verus! {

/// The shader stages that can see a binding.
#[derive(Debug, Clone, Copy, PartialEq, Eq, Hash)]
pub struct ShaderStages {
    pub vertex: bool,
    pub fragment: bool,
    pub compute: bool,
}

impl ShaderStages {
    /// Visible to the compute stage only.
    pub fn compute() -> (r: Self)
        ensures
            r == (ShaderStages { vertex: false, fragment: false, compute: true }),
    {
        ShaderStages { vertex: false, fragment: false, compute: true }
    }

    /// Visible to the fragment stage only.
    pub fn fragment() -> (r: Self)
        ensures
            r == (ShaderStages { vertex: false, fragment: true, compute: false }),
    {
        ShaderStages { vertex: false, fragment: true, compute: false }
    }

    /// The stages of `self` together with those of `other`.
    pub open spec fn spec_union(self, other: Self) -> Self {
        ShaderStages {
            vertex: self.vertex || other.vertex,
            fragment: self.fragment || other.fragment,
            compute: self.compute || other.compute,
        }
    }

    /// The stages of `self` together with those of `other`.
    pub fn union(self, other: Self) -> (r: Self)
        ensures
            r == self.spec_union(other),
    {
        ShaderStages {
            vertex: self.vertex || other.vertex,
            fragment: self.fragment || other.fragment,
            compute: self.compute || other.compute,
        }
    }
}

/// How many dimensions a texture view has.
#[derive(Debug, Clone, Copy, PartialEq, Eq, Hash)]
pub enum TextureViewDimension {
    D1,
    D2,
    D3,
}

/// What a shader reads when it samples a texture.
#[derive(Debug, Clone, Copy, PartialEq, Eq, Hash)]
pub enum TextureSampleType {
    Float { filterable: bool },
    Depth,
    Sint,
    Uint,
}

/// The kind of sampler a binding takes.
#[derive(Debug, Clone, Copy, PartialEq, Eq, Hash)]
pub enum SamplerBindingType {
    Filtering,
    NonFiltering,
    Comparison,
}

/// How a shader may touch a storage texture.
#[derive(Debug, Clone, Copy, PartialEq, Eq, Hash)]
pub enum StorageTextureAccess {
    WriteOnly,
    ReadOnly,
    ReadWrite,
}

/// The texel formats the renderer uses, for its own textures and for the
/// surface. Every one of them holds normalised bytes, which a shader reads as
/// floating-point numbers.
#[derive(Debug, Clone, Copy, PartialEq, Eq, Hash)]
pub enum TextureFormat {
    /// One byte per texel.
    R8Unorm,
    /// Red, green, blue and opacity, a byte each.
    Rgba8Unorm,
    /// As `Rgba8Unorm`, with sRGB-encoded colours.
    Rgba8UnormSrgb,
    /// Blue, green, red and opacity, a byte each.
    Bgra8Unorm,
    /// As `Bgra8Unorm`, with sRGB-encoded colours.
    Bgra8UnormSrgb,
}

impl TextureFormat {
    /// Bytes that one texel occupies.
    pub open spec fn spec_bytes_per_texel(self) -> nat {
        match self {
            TextureFormat::R8Unorm => 1,
            _ => 4,
        }
    }

    /// Bytes that one texel occupies.
    pub fn bytes_per_texel(self) -> (r: u32)
        ensures
            r == self.spec_bytes_per_texel(),
    {
        match self {
            TextureFormat::R8Unorm => 1,
            _ => 4,
        }
    }

    /// Whether the format's colours are sRGB-encoded.
    pub open spec fn spec_is_srgb(self) -> bool {
        self == TextureFormat::Rgba8UnormSrgb || self == TextureFormat::Bgra8UnormSrgb
    }

    /// Whether the format's colours are sRGB-encoded.
    pub fn is_srgb(self) -> (srgb: bool)
        ensures
            srgb == self.spec_is_srgb(),
    {
        match self {
            TextureFormat::Rgba8UnormSrgb => true,
            TextureFormat::Bgra8UnormSrgb => true,
            _ => false,
        }
    }
}

/// The kind of buffer a binding takes.
#[derive(Debug, Clone, Copy, PartialEq, Eq, Hash)]
pub enum BufferBindingType {
    Uniform,
    Storage { read_only: bool },
}

/// The shape of one binding, as a shader declares it.
#[derive(Debug, Clone, Copy, PartialEq, Eq, Hash)]
pub enum BindingType {
    Buffer { ty: BufferBindingType, has_dynamic_offset: bool, min_binding_size: Option<u64> },
    Sampler(SamplerBindingType),
    Texture {
        sample_type: TextureSampleType,
        view_dimension: TextureViewDimension,
        multisampled: bool,
    },
    StorageTexture {
        access: StorageTextureAccess,
        format: TextureFormat,
        view_dimension: TextureViewDimension,
    },
}

/// Names a live buffer that the application holds.
#[derive(Debug, Clone, Copy, PartialEq, Eq, Hash)]
pub struct BufferId(pub usize);

/// Names a live texture that the application holds.
#[derive(Debug, Clone, Copy, PartialEq, Eq, Hash)]
pub struct TextureId(pub usize);

/// Names a live texture view that the application holds.
#[derive(Debug, Clone, Copy, PartialEq, Eq, Hash)]
pub struct TextureViewId(pub usize);

/// Names a live sampler that the application holds.
#[derive(Debug, Clone, Copy, PartialEq, Eq, Hash)]
pub struct SamplerId(pub usize);

/// A live object offered to one binding slot.
#[derive(Debug, Clone, Copy, PartialEq, Eq, Hash)]
pub enum BindingResource {
    Buffer(BufferId),
    Sampler(SamplerId),
    TextureView(TextureViewId),
}

impl BindingType {
    /// Whether a slot of this shape can hold `resource`: buffers go to buffer
    /// slots, samplers to sampler slots, texture views to sampled and storage
    /// texture slots.
    pub open spec fn accepts(self, resource: BindingResource) -> bool {
        match self {
            BindingType::Buffer { .. } => resource is Buffer,
            BindingType::Sampler(_) => resource is Sampler,
            BindingType::Texture { .. } => resource is TextureView,
            BindingType::StorageTexture { .. } => resource is TextureView,
        }
    }

    /// Decides [`BindingType::accepts`].
    pub fn admits(&self, resource: &BindingResource) -> (ok: bool)
        ensures
            ok == self.accepts(*resource),
    {
        match self {
            BindingType::Buffer { .. } => match resource {
                BindingResource::Buffer(_) => true,
                _ => false,
            },
            BindingType::Sampler(_) => match resource {
                BindingResource::Sampler(_) => true,
                _ => false,
            },
            BindingType::Texture { .. } => match resource {
                BindingResource::TextureView(_) => true,
                _ => false,
            },
            BindingType::StorageTexture { .. } => match resource {
                BindingResource::TextureView(_) => true,
                _ => false,
            },
        }
    }
}

/// One entry of a bind-group layout, with its slot.
#[derive(Debug, Clone, Copy, PartialEq, Eq, Hash)]
pub struct BindGroupLayoutEntry {
    /// The slot the shader refers to.
    pub binding: u32,
    /// Which shader stages can see this binding.
    pub visibility: ShaderStages,
    /// The shape of the binding.
    pub ty: BindingType,
    /// `Some(n)` makes the entry an array of `n` bindings.
    pub count: Option<u32>,
}

/// One entry of a bind group: a live object and the slot it goes to.
#[derive(Debug, Clone, Copy, PartialEq, Eq, Hash)]
pub struct BindGroupEntry {
    /// The slot the shader refers to.
    pub binding: u32,
    /// The object bound there.
    pub resource: BindingResource,
}

/// Everything needed to create a bind-group layout.
#[derive(Debug, Clone, PartialEq, Eq)]
pub struct BindGroupLayoutDescriptor {
    pub label: String,
    pub entries: Vec<BindGroupLayoutEntry>,
}

/// Everything needed to create a bind group.
#[derive(Debug, Clone, PartialEq, Eq)]
pub struct BindGroupDescriptor {
    pub label: String,
    pub entries: Vec<BindGroupEntry>,
}

/// Whether `entries` can be bound against `layout`: as many entries as the
/// layout has, each at the slot of its layout entry and of a kind that the
/// layout entry accepts.
pub open spec fn layout_accepts(
    layout: Seq<BindGroupLayoutEntry>,
    entries: Seq<BindGroupEntry>,
) -> bool {
    &&& layout.len() == entries.len()
    &&& forall|i: int|
        0 <= i < layout.len() ==> {
            &&& (#[trigger] layout[i]).binding == entries[i].binding
            &&& layout[i].ty.accepts(entries[i].resource)
        }
}

impl BindGroupLayoutDescriptor {
    /// Decides whether `group` can be bound against this layout
    /// (see [`layout_accepts`]).
    pub fn accepts(&self, group: &BindGroupDescriptor) -> (ok: bool)
        ensures
            ok == layout_accepts(self.entries@, group.entries@),
    {
        if self.entries.len() != group.entries.len() {
            return false;
        }
        let mut i: usize = 0;
        while i < self.entries.len()
            invariant
                self.entries.len() == group.entries.len(),
                i <= self.entries.len(),
                forall|k: int|
                    0 <= k < i ==> {
                        &&& (#[trigger] self.entries@[k]).binding == group.entries@[k].binding
                        &&& self.entries@[k].ty.accepts(group.entries@[k].resource)
                    },
            decreases self.entries.len() - i,
        {
            let slot_matches = self.entries[i].binding == group.entries[i].binding;
            if !slot_matches || !self.entries[i].ty.admits(&group.entries[i].resource) {
                return false;
            }
            i += 1;
        }
        true
    }
}

/// The size of a texture, or of a region of one.
#[derive(Debug, Clone, Copy, PartialEq, Eq, Hash)]
pub struct Extent3d {
    pub width: u32,
    pub height: u32,
    pub depth_or_array_layers: u32,
}

impl Extent3d {
    /// The number of texels in the extent.
    pub open spec fn texels(self) -> nat {
        (self.width as nat) * (self.height as nat) * (self.depth_or_array_layers as nat)
    }
}

/// How the bytes of an upload are laid out in rows and images.
#[derive(Debug, Clone, Copy, PartialEq, Eq, Hash)]
pub struct ImageDataLayout {
    pub offset: u64,
    pub bytes_per_row: Option<u32>,
    pub rows_per_image: Option<u32>,
}

/// The bytes of a texture and the way to copy them into it.
#[derive(Debug, Clone, PartialEq, Eq)]
pub struct TextureUpload {
    pub data: Vec<u8>,
    pub layout: ImageDataLayout,
    pub size: Extent3d,
}

impl TextureUpload {
    /// The upload is tightly packed and covers its extent exactly: rows follow
    /// one another without padding, images follow one another without padding,
    /// and `data` holds one image per layer and nothing more.
    pub open spec fn covers(self, format: TextureFormat) -> bool {
        &&& self.layout.offset == 0
        &&& self.layout.bytes_per_row == Some(
            (self.size.width * format.spec_bytes_per_texel()) as u32,
        )
        &&& self.size.width * format.spec_bytes_per_texel() <= u32::MAX
        &&& self.layout.rows_per_image == Some(self.size.height)
        &&& self.data@.len() == self.size.texels() * format.spec_bytes_per_texel()
    }
}

/// How many dimensions a texture has.
#[derive(Debug, Clone, Copy, PartialEq, Eq, Hash)]
pub enum TextureDimension {
    D1,
    D2,
    D3,
}

/// What a texture may be used for.
#[derive(Debug, Clone, Copy, PartialEq, Eq, Hash)]
pub struct TextureUsages {
    pub copy_src: bool,
    pub copy_dst: bool,
    pub texture_binding: bool,
    pub storage_binding: bool,
    pub render_attachment: bool,
}

/// Everything needed to create a texture.
#[derive(Debug, Clone, PartialEq, Eq)]
pub struct TextureDescriptor {
    pub label: String,
    pub size: Extent3d,
    pub mip_level_count: u32,
    pub sample_count: u32,
    pub dimension: TextureDimension,
    pub format: TextureFormat,
    pub usage: TextureUsages,
}

/// What a sampler does with coordinates outside the texture.
#[derive(Debug, Clone, Copy, PartialEq, Eq, Hash)]
pub enum AddressMode {
    ClampToEdge,
    Repeat,
    MirrorRepeat,
}

/// How a sampler blends neighbouring texels.
#[derive(Debug, Clone, Copy, PartialEq, Eq, Hash)]
pub enum FilterMode {
    Nearest,
    Linear,
}

/// Everything needed to create a sampler.
#[derive(Debug, Clone, PartialEq, Eq)]
pub struct SamplerDescriptor {
    pub label: String,
    pub address_mode_u: AddressMode,
    pub address_mode_v: AddressMode,
    pub address_mode_w: AddressMode,
    pub mag_filter: FilterMode,
    pub min_filter: FilterMode,
    pub mipmap_filter: FilterMode,
}

/// What a buffer may be used for.
#[derive(Debug, Clone, Copy, PartialEq, Eq, Hash)]
pub struct BufferUsages {
    pub uniform: bool,
    pub copy_dst: bool,
}

/// Everything needed to create a buffer that starts out with given contents.
#[derive(Debug, Clone, PartialEq, Eq)]
pub struct BufferInitDescriptor {
    pub label: String,
    pub contents: Vec<u8>,
    pub usage: BufferUsages,
}

/// New contents for a buffer, written from its start.
#[derive(Debug, Clone, PartialEq, Eq)]
pub struct BufferWrite {
    pub buffer: BufferId,
    pub offset: u64,
    pub data: Vec<u8>,
}

/// A shader program in source form.
#[derive(Debug, Clone, PartialEq, Eq)]
pub struct ShaderModuleDescriptor {
    pub label: String,
    pub source: String,
}

/// The bind-group layouts of a pipeline: the `i`-th is that of group `i`.
#[derive(Debug, Clone, PartialEq, Eq)]
pub struct PipelineLayoutDescriptor {
    pub label: String,
    pub bind_group_layouts: Vec<BindGroupLayoutDescriptor>,
}

/// Everything needed to create a compute pipeline.
#[derive(Debug, Clone, PartialEq, Eq)]
pub struct ComputePipelineDescriptor {
    pub label: String,
    pub layout: PipelineLayoutDescriptor,
    pub module: ShaderModuleDescriptor,
    pub entry_point: String,
}

/// Everything needed to create the render pipeline that draws one texture
/// over the whole surface.
#[derive(Debug, Clone, PartialEq, Eq)]
pub struct RenderPipelineDescriptor {
    pub label: String,
    pub layout: PipelineLayoutDescriptor,
    pub module: ShaderModuleDescriptor,
    pub vertex_entry_point: String,
    pub fragment_entry_point: String,
    /// The format of the surface that the fragments are written to.
    pub target_format: TextureFormat,
}

/// Workgroups along x, y and z.
#[derive(Debug, Clone, Copy, PartialEq, Eq, Hash)]
pub struct Workgroups {
    pub x: u32,
    pub y: u32,
    pub z: u32,
}

/// The indices from `start` up to, and without, `end`.
#[derive(Debug, Clone, Copy, PartialEq, Eq, Hash)]
pub struct DrawRange {
    pub start: u32,
    pub end: u32,
}

/// One compute pass: which bind group goes to which group index, and how many
/// workgroups run.
#[derive(Debug, Clone, PartialEq, Eq)]
pub struct ComputePassCommands {
    pub label: String,
    /// `group_indices[k]` is the group index at which the caller's `k`-th bind
    /// group is set.
    pub group_indices: Vec<u32>,
    /// How many workgroups run.
    pub workgroups: Workgroups,
}

/// One render pass: which bind group goes to which group index, and which
/// vertices and instances are drawn.
#[derive(Debug, Clone, PartialEq, Eq)]
pub struct RenderPassCommands {
    pub label: String,
    /// `group_indices[k]` is the group index at which the caller's `k`-th bind
    /// group is set.
    pub group_indices: Vec<u32>,
    /// The vertices drawn.
    pub vertices: DrawRange,
    /// The instances drawn.
    pub instances: DrawRange,
}

impl TextureViewDimension {
    /// The dimension of a view of the whole of a texture of `dimension`.
    pub open spec fn of(dimension: TextureDimension) -> TextureViewDimension {
        match dimension {
            TextureDimension::D1 => TextureViewDimension::D1,
            TextureDimension::D2 => TextureViewDimension::D2,
            TextureDimension::D3 => TextureViewDimension::D3,
        }
    }
}

impl BindingType {
    /// Whether a view of the whole of a texture made from `desc` can be bound
    /// to a slot of this shape.
    ///
    /// A sampled-texture slot takes a texture that may be sampled, of the
    /// slot's dimension, whose texels read as floating-point numbers (as
    /// those of every format here do), multisampled if and only if the slot
    /// is. A
    /// storage-texture slot takes a single-sampled texture that may be used as
    /// storage, of the slot's dimension and format. No other slot takes a
    /// texture.
    pub open spec fn fits_texture(self, desc: TextureDescriptor) -> bool {
        match self {
            BindingType::Texture { sample_type, view_dimension, multisampled } => {
                &&& desc.usage.texture_binding
                &&& view_dimension == TextureViewDimension::of(desc.dimension)
                &&& sample_type is Float
                &&& multisampled == (desc.sample_count > 1)
            },
            BindingType::StorageTexture { access, format, view_dimension } => {
                &&& desc.usage.storage_binding
                &&& view_dimension == TextureViewDimension::of(desc.dimension)
                &&& format == desc.format
                &&& desc.sample_count == 1
            },
            _ => false,
        }
    }

    /// Whether a sampler made from `desc` can be bound to a slot of this
    /// shape: a filtering slot takes every such sampler, a non-filtering slot
    /// only one that never blends texels. No other slot takes one.
    pub open spec fn fits_sampler(self, desc: SamplerDescriptor) -> bool {
        match self {
            BindingType::Sampler(SamplerBindingType::Filtering) => true,
            BindingType::Sampler(SamplerBindingType::NonFiltering) => {
                &&& desc.mag_filter == FilterMode::Nearest
                &&& desc.min_filter == FilterMode::Nearest
                &&& desc.mipmap_filter == FilterMode::Nearest
            },
            _ => false,
        }
    }

    /// Whether a buffer made for `usage` can be bound to a slot of this
    /// shape: a uniform slot takes a buffer that may be used for uniforms. No
    /// other slot of the renderer takes a buffer.
    pub open spec fn fits_buffer(self, usage: BufferUsages) -> bool {
        match self {
            BindingType::Buffer { ty: BufferBindingType::Uniform, .. } => usage.uniform,
            _ => false,
        }
    }
}

} // verus!
