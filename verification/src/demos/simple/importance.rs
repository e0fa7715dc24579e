//! Segment importances: a cube that says, voxel by voxel, how important the
//! segment is that the voxel belongs to.

use vstd::prelude::*;
use crate::gpu::AddressMode;
use crate::gpu::BindingResource;
use crate::gpu::FilterMode;
use crate::gpu::SamplerDescriptor;
use crate::gpu::SamplerId;
use crate::gpu::ShaderStages;
use crate::gpu::TextureDescriptor;
use crate::gpu::TextureFormat;
use crate::gpu::TextureUpload;
use crate::gpu::TextureViewDimension;
use crate::gpu::TextureViewId;
use crate::gpu_resources::texture::make_sampled_texture_entries;
use crate::gpu_resources::texture::make_sampled_texture_resources;
use crate::gpu_resources::texture::sampled_texture_entries;
use crate::gpu_resources::texture::sampled_texture_resources;
use crate::gpu_resources::texture::uniform_sampler;
use crate::gpu_resources::volume::cube_texture;
use crate::gpu_resources::volume::cube_upload;
use crate::gpu_resources::volume::make_cube_texture;
use crate::gpu_resources::volume::volume_extent;
use crate::gpu_resources::BindGroupLayoutEntryUnbound;
use crate::gpu_resources::ToGpuResources;
use crate::volume_data::fit_volume;
use crate::volume_data::volume_bytes;
use crate::volume_data::FlipMode;

verus! {

/// One segment of a labelled volume.
#[derive(Debug, Clone, PartialEq, Eq)]
pub struct SegmentInfo {
    pub id: String,
    pub name: String,
    pub index: u8,
    /// The byte that marks the segment's voxels in the label volume.
    pub label_value: u8,
    /// How important the segment is.
    pub importance: u8,
}

/// The importance of the voxels labelled `label_value`: that of the first
/// segment in `info` with that label, and 0 where no segment has it.
pub open spec fn importance_of(info: Seq<SegmentInfo>, label_value: u8) -> u8
    decreases info.len(),
{
    if info.len() == 0 {
        0
    } else if info[0].label_value == label_value {
        info[0].importance
    } else {
        importance_of(info.drop_first(), label_value)
    }
}

/// The label volume `data` with every label replaced by its importance.
pub open spec fn importances(data: Seq<u8>, info: Seq<SegmentInfo>) -> Seq<u8> {
    Seq::new(data.len(), |i: int| importance_of(info, data[i]))
}

/// [`importance_of`], said without recursion: where some segment has the
/// label, the importance is that of the first such segment; where none has,
/// it is 0.
pub proof fn lemma_importance_of(info: Seq<SegmentInfo>, label_value: u8)
    ensures
        (forall|k: int| 0 <= k < info.len() ==> (#[trigger] info[k]).label_value != label_value)
            ==> importance_of(info, label_value) == 0,
        forall|k: int|
            0 <= k < info.len() && (#[trigger] info[k]).label_value == label_value && (forall|j: int|
                0 <= j < k ==> (#[trigger] info[j]).label_value != label_value) ==> importance_of(
                info,
                label_value,
            ) == info[k].importance,
    decreases info.len(),
{
    if info.len() > 0 {
        let rest = info.drop_first();
        lemma_importance_of(rest, label_value);
        if info[0].label_value != label_value {
            assert forall|k: int|
                0 <= k < info.len() && (#[trigger] info[k]).label_value == label_value && (forall|
                    j: int,
                | 0 <= j < k ==> (#[trigger] info[j]).label_value != label_value) implies importance_of(
                info,
                label_value,
            ) == info[k].importance by {
                assert(rest[k - 1] == info[k]);
                assert forall|j: int| 0 <= j < k - 1 implies (#[trigger] rest[j]).label_value
                    != label_value by {
                    assert(rest[j] == info[j + 1]);
                }
            }
            if forall|k: int|
                0 <= k < info.len() ==> (#[trigger] info[k]).label_value != label_value {
                assert forall|k: int| 0 <= k < rest.len() implies (#[trigger] rest[k]).label_value
                    != label_value by {
                    assert(rest[k] == info[k + 1]);
                }
            }
        } else {
            assert forall|k: int|
                0 <= k < info.len() && (#[trigger] info[k]).label_value == label_value && (forall|
                    j: int,
                | 0 <= j < k ==> (#[trigger] info[j]).label_value != label_value) implies importance_of(
                info,
                label_value,
            ) == info[k].importance by {
                if k > 0 {
                    assert(info[0].label_value != label_value);
                }
            }
        }
    }
}

/// Looks the importance of one label up (see [`importance_of`]).
fn segment_importance(info: &Vec<SegmentInfo>, label_value: u8) -> (importance: u8)
    ensures
        importance == importance_of(info@, label_value),
{
    let mut k: usize = 0;
    assert(info@.subrange(0, info@.len() as int) =~= info@);
    while k < info.len()
        invariant
            k <= info@.len(),
            importance_of(info@, label_value) == importance_of(
                info@.subrange(k as int, info@.len() as int),
                label_value,
            ),
        decreases info@.len() - k,
    {
        let ghost rest = info@.subrange(k as int, info@.len() as int);
        assert(rest[0] == info@[k as int]);
        assert(rest.drop_first() =~= info@.subrange(k + 1, info@.len() as int));
        if info[k].label_value == label_value {
            return info[k].importance;
        }
        k += 1;
    }
    0
}

/// Maps a label volume to an importance volume: every byte of `data` is a
/// segment's label and is replaced by that segment's importance, or by 0 where
/// `info` knows no segment with that label.
pub fn map_segments_to_importance(data: Vec<u8>, info: Vec<SegmentInfo>) -> (mapped: Vec<u8>)
    ensures
        mapped@ == importances(data@, info@),
{
    let mut mapped: Vec<u8> = Vec::new();
    let mut i: usize = 0;
    while i < data.len()
        invariant
            i <= data@.len(),
            mapped@ == importances(data@.subrange(0, i as int), info@),
        decreases data@.len() - i,
    {
        mapped.push(segment_importance(&info, data[i]));
        i += 1;
        assert(mapped@ =~= importances(data@.subrange(0, i as int), info@));
    }
    assert(data@.subrange(0, i as int) =~= data@);
    mapped
}

/// How often each byte value occurs in `data`: the number of voxels of each
/// segment of a label or importance volume.
pub open spec fn voxel_count(data: Seq<u8>, value: u8) -> nat {
    data.filter(|b: u8| b == value).len()
}

/// One more byte is one more voxel of the segment it names, and of no other.
proof fn lemma_voxel_count_push(data: Seq<u8>, byte: u8, value: u8)
    ensures
        voxel_count(data.push(byte), value) == voxel_count(data, value) + if value == byte {
            1nat
        } else {
            0nat
        },
{
    reveal(Seq::filter);
    assert(data.push(byte).drop_last() =~= data);
}

/// No segment has more voxels than the volume.
proof fn lemma_voxel_count_bound(data: Seq<u8>, value: u8)
    ensures
        voxel_count(data, value) <= data.len(),
    decreases data.len(),
{
    if data.len() == 0 {
        reveal(Seq::filter);
    } else {
        lemma_voxel_count_bound(data.drop_last(), value);
        lemma_voxel_count_push(data.drop_last(), data.last(), value);
        assert(data.drop_last().push(data.last()) =~= data);
    }
}

/// Counts the voxels of every segment: entry `v` of the result is the number
/// of bytes of `data` that equal `v`.
pub fn segment_voxel_counts(data: &[u8]) -> (counts: Vec<usize>)
    ensures
        counts@.len() == 256,
        forall|v: u8| #![trigger counts@[v as int]] counts@[v as int] == voxel_count(data@, v),
{
    let mut counts: Vec<usize> = Vec::new();
    let mut v: usize = 0;
    while v < 256
        invariant
            v <= 256,
            counts@.len() == v,
            forall|k: int| 0 <= k < v ==> counts@[k] == 0,
        decreases 256 - v,
    {
        counts.push(0);
        v += 1;
    }
    let mut i: usize = 0;
    assert(data@.subrange(0, 0) =~= Seq::<u8>::empty());
    while i < data.len()
        invariant
            i <= data@.len(),
            counts@.len() == 256,
            forall|v: u8|
                #![trigger counts@[v as int]]
                counts@[v as int] == voxel_count(data@.subrange(0, i as int), v),
        decreases data@.len() - i,
    {
        let id: u8 = data[i];
        let ghost before = data@.subrange(0, i as int);
        let ghost after = data@.subrange(0, i + 1);
        proof {
            assert(after =~= before.push(id));
            assert forall|v: u8| voxel_count(after, v) == voxel_count(before, v) + if v == id {
                1nat
            } else {
                0nat
            } by {
                lemma_voxel_count_push(before, id, v);
            }
            lemma_voxel_count_bound(before, id);
        }
        let old_count: usize = counts[id as usize];
        counts.set(id as usize, old_count + 1);
        i += 1;
    }
    assert(data@.subrange(0, i as int) =~= data@);
    counts
}

/// The importance volume as the compute pass samples it.
#[derive(Debug, Clone, Copy, PartialEq, Eq)]
pub struct GpuImportances {
    texture_view: TextureViewId,
    sampler: SamplerId,
}

impl GpuImportances {
    /// The view behind the texture binding.
    pub closed spec fn view(&self) -> TextureViewId {
        self.texture_view
    }

    /// The sampler behind the sampler binding.
    pub closed spec fn sampler(&self) -> SamplerId {
        self.sampler
    }

    /// Describes the texture to create: a cube as large as the volume, one
    /// importance per voxel.
    pub fn texture_descriptor() -> (desc: TextureDescriptor)
        ensures
            cube_texture("Importances Texture"@, desc),
            Self::layout_entries()[0].ty.fits_texture(desc),
    {
        make_cube_texture("Importances Texture")
    }

    /// Describes the sampler to create: clamped at the edges, taking the
    /// nearest voxel, so that importances of neighbouring segments never
    /// blend.
    pub fn sampler_descriptor() -> (desc: SamplerDescriptor)
        ensures
            desc.label@ == "Importances Sampler"@,
            desc.address_mode_u == AddressMode::ClampToEdge,
            desc.address_mode_v == AddressMode::ClampToEdge,
            desc.address_mode_w == AddressMode::ClampToEdge,
            desc.mag_filter == FilterMode::Nearest,
            desc.min_filter == FilterMode::Nearest,
            desc.mipmap_filter == FilterMode::Nearest,
            Self::layout_entries()[1].ty.fits_sampler(desc),
    {
        uniform_sampler("Importances Sampler", AddressMode::ClampToEdge, FilterMode::Nearest)
    }

    /// The upload that fills the importance texture from the label stream
    /// `data` and the segments `info`: every label is replaced by its
    /// segment's importance, and the result is fitted to the cube as a
    /// density volume is.
    pub fn upload(data: Vec<u8>, info: Vec<SegmentInfo>, flip_mode: FlipMode) -> (upload:
        TextureUpload)
        ensures
            upload.data@ == volume_bytes(importances(data@, info@), flip_mode),
            upload.size == volume_extent(),
            upload.covers(TextureFormat::R8Unorm),
    {
        cube_upload(fit_volume(map_segments_to_importance(data, info), flip_mode))
    }

    /// The importance resource over the live `texture_view` and `sampler`.
    pub fn init(texture_view: TextureViewId, sampler: SamplerId) -> (importances: Self)
        ensures
            importances.view() == texture_view,
            importances.sampler() == sampler,
    {
        GpuImportances { texture_view, sampler }
    }
}

impl ToGpuResources for GpuImportances {
    open spec fn layout_entries() -> Seq<BindGroupLayoutEntryUnbound> {
        sampled_texture_entries(
            ShaderStages { vertex: false, fragment: false, compute: true },
            TextureViewDimension::D3,
        )
    }

    closed spec fn gpu_resources(&self) -> Seq<BindingResource> {
        sampled_texture_resources(self.texture_view, self.sampler)
    }

    proof fn lemma_contribution_matches(&self) {
    }

    fn bind_group_layout_entries() -> (entries: Vec<BindGroupLayoutEntryUnbound>) {
        make_sampled_texture_entries(ShaderStages::compute(), TextureViewDimension::D3)
    }

    fn to_gpu_resources(&self) -> (resources: Vec<BindingResource>)
        ensures
            resources@ == sampled_texture_resources(self.view(), self.sampler()),
    {
        make_sampled_texture_resources(self.texture_view, self.sampler)
    }
}

} // verus!
