//! Resources that describe their own bindings.
//!
//! A bind-group entry and a bind-group layout entry each carry a slot number,
//! which invites hard-coded indices that drift apart. Here every resource only
//! says what it needs, without slots; the lists of several resources are then
//! laid end to end and numbered by position, the layout and the bind group in
//! the same way, so that the two cannot disagree.

use vstd::prelude::*;
use crate::gpu::BindGroupEntry;
use crate::gpu::BindGroupLayoutEntry;
use crate::gpu::BindingResource;
use crate::gpu::BindingType;
use crate::gpu::ShaderStages;

pub mod camera;
pub mod debug_matrix;
pub mod output_texture;
pub mod parameters;
pub mod texture;
pub mod transfer_function;
pub mod volume;

pub use crate::volume_data::flip_3d_texture_y;
pub use crate::volume_data::FlipMode;

verus! {

/// A layout entry without its slot: which stages see the binding, what shape
/// it has, and whether it is an array.
#[derive(Clone, Copy, Debug, PartialEq, Eq, Hash)]
pub struct BindGroupLayoutEntryUnbound {
    /// Which shader stages can see this binding.
    pub visibility: ShaderStages,
    /// The shape of the binding.
    pub ty: BindingType,
    /// `Some(n)` makes the entry an array of `n` bindings.
    pub count: Option<u32>,
}

/// The most entries a bind group or a layout can number: slots are `u32`.
pub open spec fn max_slots() -> nat {
    0x1_0000_0000
}

/// The layout entries `entries` with slot `i` given to the `i`-th of them.
pub open spec fn bound_layout(entries: Seq<BindGroupLayoutEntryUnbound>) -> Seq<
    BindGroupLayoutEntry,
> {
    Seq::new(
        entries.len(),
        |i: int|
            BindGroupLayoutEntry {
                binding: i as u32,
                visibility: entries[i].visibility,
                ty: entries[i].ty,
                count: entries[i].count,
            },
    )
}

/// The resources `resources` with slot `i` given to the `i`-th of them.
pub open spec fn bound_group(resources: Seq<BindingResource>) -> Seq<BindGroupEntry> {
    Seq::new(resources.len(), |i: int| BindGroupEntry { binding: i as u32, resource: resources[i] })
}

/// Whether `resources` is what a resource with the layout contribution
/// `layout` may offer: one resource for each layout entry, in the same order,
/// each of a kind that its entry accepts.
pub open spec fn contribution_matches(
    layout: Seq<BindGroupLayoutEntryUnbound>,
    resources: Seq<BindingResource>,
) -> bool {
    &&& layout.len() == resources.len()
    &&& forall|i: int| 0 <= i < layout.len() ==> (#[trigger] layout[i]).ty.accepts(resources[i])
}

/// A GPU resource that knows which bindings it needs and which live objects
/// fill them.
pub trait ToGpuResources {
    /// The layout entries that the resource contributes, in order.
    spec fn layout_entries() -> Seq<BindGroupLayoutEntryUnbound>;

    /// The live objects that the resource contributes, in order.
    spec fn gpu_resources(&self) -> Seq<BindingResource>;

    /// The two contributions go together: the resource offers one live object
    /// for each of its layout entries, in the same order, each of a kind that
    /// its entry accepts.
    proof fn lemma_contribution_matches(&self)
        ensures
            contribution_matches(Self::layout_entries(), self.gpu_resources()),
    ;

    /// The layout contribution: what bindings a resource of this type needs.
    fn bind_group_layout_entries() -> (entries: Vec<BindGroupLayoutEntryUnbound>)
        ensures
            entries@ == Self::layout_entries(),
    ;

    /// The resource contribution: the live objects for those bindings, one for
    /// each layout entry and in the same order.
    fn to_gpu_resources(&self) -> (resources: Vec<BindingResource>)
        ensures
            resources@ == self.gpu_resources(),
            contribution_matches(Self::layout_entries(), resources@),
    ;
}

/// A list of live objects that can be numbered into bind-group entries.
pub trait ToBindGroupEntries: Sized {
    /// The live objects, in slot order.
    spec fn slot_resources(&self) -> Seq<BindingResource>;

    /// Numbers the objects by position: the `i`-th goes to slot `i`.
    fn to_bind_group_entries(&self) -> (entries: Vec<BindGroupEntry>)
        requires
            self.slot_resources().len() <= max_slots(),
        ensures
            entries@ == bound_group(self.slot_resources()),
    ;
}

impl ToBindGroupEntries for Vec<BindingResource> {
    open spec fn slot_resources(&self) -> Seq<BindingResource> {
        self@
    }

    fn to_bind_group_entries(&self) -> (entries: Vec<BindGroupEntry>) {
        let mut entries: Vec<BindGroupEntry> = Vec::new();
        let mut i: usize = 0;
        while i < self.len()
            invariant
                i <= self.len(),
                self@.len() <= max_slots(),
                entries@ == bound_group(self@.subrange(0, i as int)),
            decreases self.len() - i,
        {
            entries.push(BindGroupEntry { binding: i as u32, resource: self[i] });
            i += 1;
            assert(entries@ =~= bound_group(self@.subrange(0, i as int)));
        }
        assert(self@.subrange(0, i as int) =~= self@);
        entries
    }
}

/// A list of slotless layout entries that can be numbered into layout entries.
pub trait ToBindGroupLayoutEntries: Sized {
    /// The slotless entries, in slot order.
    spec fn slot_entries(&self) -> Seq<BindGroupLayoutEntryUnbound>;

    /// Numbers the entries by position: the `i`-th gets slot `i`.
    fn to_bind_group_layout_entries(&self) -> (entries: Vec<BindGroupLayoutEntry>)
        requires
            self.slot_entries().len() <= max_slots(),
        ensures
            entries@ == bound_layout(self.slot_entries()),
    ;
}

impl ToBindGroupLayoutEntries for Vec<&BindGroupLayoutEntryUnbound> {
    open spec fn slot_entries(&self) -> Seq<BindGroupLayoutEntryUnbound> {
        self@.map_values(|e: &BindGroupLayoutEntryUnbound| *e)
    }

    fn to_bind_group_layout_entries(&self) -> (entries: Vec<BindGroupLayoutEntry>) {
        let mut entries: Vec<BindGroupLayoutEntry> = Vec::new();
        let mut i: usize = 0;
        while i < self.len()
            invariant
                i <= self.len(),
                self@.len() <= max_slots(),
                entries@ == bound_layout(self.slot_entries().subrange(0, i as int)),
            decreases self.len() - i,
        {
            let r: &BindGroupLayoutEntryUnbound = self[i];
            entries.push(
                BindGroupLayoutEntry {
                    binding: i as u32,
                    visibility: r.visibility,
                    ty: r.ty,
                    count: r.count,
                },
            );
            i += 1;
            assert(entries@ =~= bound_layout(self.slot_entries().subrange(0, i as int)));
        }
        assert(self.slot_entries().subrange(0, i as int) =~= self.slot_entries());
        entries
    }
}

} // verus!
