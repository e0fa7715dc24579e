//! The storage texture that the compute pass writes.

use vstd::prelude::*;
use crate::gpu::BindingResource;
use crate::gpu::BindingType;
use crate::gpu::ShaderStages;
use crate::gpu::StorageTextureAccess;
use crate::gpu::TextureFormat;
use crate::gpu::TextureViewDimension;
use crate::gpu::TextureViewId;
use crate::gpu_resources::BindGroupLayoutEntryUnbound;
use crate::gpu_resources::ToGpuResources;

verus! {

/// The layout entry of a two-dimensional RGBA texture that the compute stage
/// writes and never reads.
pub open spec fn write_only_storage_entry() -> BindGroupLayoutEntryUnbound {
    BindGroupLayoutEntryUnbound {
        visibility: ShaderStages { vertex: false, fragment: false, compute: true },
        ty: BindingType::StorageTexture {
            access: StorageTextureAccess::WriteOnly,
            format: TextureFormat::Rgba8Unorm,
            view_dimension: TextureViewDimension::D2,
        },
        count: None,
    }
}

/// Builds [`write_only_storage_entry`].
pub fn make_write_only_storage_entry() -> (entry: BindGroupLayoutEntryUnbound)
    ensures
        entry == write_only_storage_entry(),
{
    BindGroupLayoutEntryUnbound {
        visibility: ShaderStages::compute(),
        ty: BindingType::StorageTexture {
            access: StorageTextureAccess::WriteOnly,
            format: TextureFormat::Rgba8Unorm,
            view_dimension: TextureViewDimension::D2,
        },
        count: None,
    }
}

/// The view of the texture that receives the rendered image.
#[derive(Debug, Clone, Copy, PartialEq, Eq)]
pub struct GpuOutputTexture {
    texture_view: TextureViewId,
}

impl GpuOutputTexture {
    /// The view behind the binding.
    pub closed spec fn view(&self) -> TextureViewId {
        self.texture_view
    }

    /// The output resource over `texture_view`.
    pub closed spec fn new_spec(texture_view: TextureViewId) -> Self {
        GpuOutputTexture { texture_view }
    }

    /// The output resource over `texture_view`, a view of the texture that the
    /// render pass reads afterwards.
    #[verifier::when_used_as_spec(new_spec)]
    pub fn new(texture_view: TextureViewId) -> (output: Self)
        ensures
            output == Self::new_spec(texture_view),
            output.view() == texture_view,
    {
        GpuOutputTexture { texture_view }
    }
}

impl ToGpuResources for GpuOutputTexture {
    open spec fn layout_entries() -> Seq<BindGroupLayoutEntryUnbound> {
        seq![write_only_storage_entry()]
    }

    closed spec fn gpu_resources(&self) -> Seq<BindingResource> {
        seq![BindingResource::TextureView(self.texture_view)]
    }

    proof fn lemma_contribution_matches(&self) {
    }

    fn bind_group_layout_entries() -> (entries: Vec<BindGroupLayoutEntryUnbound>) {
        let mut entries: Vec<BindGroupLayoutEntryUnbound> = Vec::new();
        entries.push(make_write_only_storage_entry());
        assert(entries@ =~= Self::layout_entries());
        entries
    }

    fn to_gpu_resources(&self) -> (resources: Vec<BindingResource>)
        ensures
            resources@ == seq![BindingResource::TextureView(self.view())],
    {
        let mut resources: Vec<BindingResource> = Vec::new();
        resources.push(BindingResource::TextureView(self.texture_view));
        assert(resources@ =~= self.gpu_resources());
        resources
    }
}

} // verus!
