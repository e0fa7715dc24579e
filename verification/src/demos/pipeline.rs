//! The compute pipeline and the composition of its bind groups.

use vstd::prelude::*;
use crate::gpu::layout_accepts;
use crate::gpu::BindGroupDescriptor;
use crate::gpu::BindGroupLayoutDescriptor;
use crate::gpu::BindingResource;
use crate::gpu::BufferWrite;
use crate::gpu::ComputePassCommands;
use crate::gpu::ComputePipelineDescriptor;
use crate::gpu::PipelineLayoutDescriptor;
use crate::gpu::ShaderModuleDescriptor;
use crate::gpu::TextureViewId;
use crate::gpu::Workgroups;
use crate::gpu_context::GpuContext;
use crate::gpu_context::PhysicalSize;
use crate::gpu_resources::camera::GpuCamera;
use crate::gpu_resources::debug_matrix::GpuDebugMatrix;
use crate::gpu_resources::output_texture::GpuOutputTexture;
use crate::gpu_resources::ToGpuResources;
use crate::gpu_resources::bound_group;
use crate::gpu_resources::bound_layout;
use crate::gpu_resources::contribution_matches;
use crate::gpu_resources::max_slots;
use crate::gpu_resources::BindGroupLayoutEntryUnbound;
use crate::gpu_resources::ToBindGroupEntries;
use crate::gpu_resources::ToBindGroupLayoutEntries;

verus! {

/// The layout contributions of several resources, as sequences.
pub open spec fn layout_lists(lists: Seq<&[BindGroupLayoutEntryUnbound]>) -> Seq<
    Seq<BindGroupLayoutEntryUnbound>,
> {
    lists.map_values(|list: &[BindGroupLayoutEntryUnbound]| list@)
}

/// The resource contributions of several resources, as sequences.
pub open spec fn resource_lists(lists: Seq<Vec<BindingResource>>) -> Seq<Seq<BindingResource>> {
    lists.map_values(|list: Vec<BindingResource>| list@)
}

/// Composes one bind-group layout from the layout contributions of several
/// resources: the contributions are laid end to end, resource after resource
/// and within a resource in its own order, and the `i`-th entry of the whole
/// gets slot `i`.
pub fn layout_from_unbound_entries(
    label: &str,
    base_inputs: &[&[BindGroupLayoutEntryUnbound]],
) -> (layout: BindGroupLayoutDescriptor)
    requires
        layout_lists(base_inputs@).flatten().len() <= max_slots(),
    ensures
        layout.label@ == label@,
        layout.entries@ == bound_layout(layout_lists(base_inputs@).flatten()),
{
    let ghost lists = layout_lists(base_inputs@);
    let mut flat_base_inputs: Vec<&BindGroupLayoutEntryUnbound> = Vec::new();
    let mut k: usize = 0;
    while k < base_inputs.len()
        invariant
            k <= base_inputs@.len(),
            lists == layout_lists(base_inputs@),
            flat_base_inputs.slot_entries() == lists.subrange(0, k as int).flatten(),
        decreases base_inputs@.len() - k,
    {
        let list: &[BindGroupLayoutEntryUnbound] = base_inputs[k];
        let ghost done = lists.subrange(0, k as int).flatten();
        let mut i: usize = 0;
        while i < list.len()
            invariant
                i <= list@.len(),
                flat_base_inputs.slot_entries() == done + list@.subrange(0, i as int),
            decreases list@.len() - i,
        {
            let entry: &BindGroupLayoutEntryUnbound = &list[i];
            let ghost before = flat_base_inputs.slot_entries();
            flat_base_inputs.push(entry);
            assert(flat_base_inputs.slot_entries() =~= before.push(*entry));
            i += 1;
            assert(flat_base_inputs.slot_entries() =~= done + list@.subrange(0, i as int));
        }
        proof {
            assert(list@.subrange(0, i as int) =~= list@);
            assert(lists.subrange(0, k + 1) =~= lists.subrange(0, k as int).push(list@));
            lists.subrange(0, k as int).lemma_flatten_push(list@);
        }
        k += 1;
    }
    assert(lists.subrange(0, k as int) =~= lists);
    BindGroupLayoutDescriptor {
        label: label.to_owned(),
        entries: flat_base_inputs.to_bind_group_layout_entries(),
    }
}

/// Composes one bind group from the resource contributions of several
/// resources, in the way [`layout_from_unbound_entries`] composes the layout:
/// the contributions are laid end to end and the `i`-th resource of the whole
/// goes to slot `i`.
///
/// The resources must be given in the order in which their layout
/// contributions were given when the layout was composed.
pub fn bindgroup_from_resources(
    label: &str,
    base_inputs_resources: &[Vec<BindingResource>],
) -> (group: BindGroupDescriptor)
    requires
        resource_lists(base_inputs_resources@).flatten().len() <= max_slots(),
    ensures
        group.label@ == label@,
        group.entries@ == bound_group(resource_lists(base_inputs_resources@).flatten()),
{
    let ghost lists = resource_lists(base_inputs_resources@);
    let mut flat_base_inputs_resources: Vec<BindingResource> = Vec::new();
    let mut k: usize = 0;
    while k < base_inputs_resources.len()
        invariant
            k <= base_inputs_resources@.len(),
            lists == resource_lists(base_inputs_resources@),
            flat_base_inputs_resources@ == lists.subrange(0, k as int).flatten(),
        decreases base_inputs_resources@.len() - k,
    {
        let list: &Vec<BindingResource> = &base_inputs_resources[k];
        let ghost done = lists.subrange(0, k as int).flatten();
        let mut i: usize = 0;
        while i < list.len()
            invariant
                i <= list@.len(),
                flat_base_inputs_resources@ == done + list@.subrange(0, i as int),
            decreases list@.len() - i,
        {
            flat_base_inputs_resources.push(list[i]);
            i += 1;
            assert(flat_base_inputs_resources@ =~= done + list@.subrange(0, i as int));
        }
        proof {
            assert(list@.subrange(0, i as int) =~= list@);
            assert(lists.subrange(0, k + 1) =~= lists.subrange(0, k as int).push(list@));
            lists.subrange(0, k as int).lemma_flatten_push(list@);
        }
        k += 1;
    }
    assert(lists.subrange(0, k as int) =~= lists);
    BindGroupDescriptor {
        label: label.to_owned(),
        entries: flat_base_inputs_resources.to_bind_group_entries(),
    }
}

/// Laying contributions end to end keeps them matched: if every resource
/// offers what its own layout contribution asks for, the whole of the
/// resources is what the whole of the layout asks for.
pub proof fn lemma_flatten_matches(
    layouts: Seq<Seq<BindGroupLayoutEntryUnbound>>,
    resources: Seq<Seq<BindingResource>>,
)
    requires
        layouts.len() == resources.len(),
        forall|k: int|
            0 <= k < layouts.len() ==> contribution_matches(#[trigger] layouts[k], resources[k]),
    ensures
        contribution_matches(layouts.flatten(), resources.flatten()),
    decreases layouts.len(),
{
    if layouts.len() == 0 {
    } else {
        let l = layouts.drop_first();
        let r = resources.drop_first();
        assert forall|k: int| 0 <= k < l.len() implies contribution_matches(#[trigger] l[k], r[k]) by {
            assert(contribution_matches(layouts[k + 1], resources[k + 1]));
        }
        lemma_flatten_matches(l, r);
        assert(contribution_matches(layouts[0], resources[0]));
        let lf = layouts.flatten();
        let rf = resources.flatten();
        assert(lf == layouts[0] + l.flatten());
        assert(rf == resources[0] + r.flatten());
        assert forall|i: int| 0 <= i < lf.len() implies (#[trigger] lf[i]).ty.accepts(rf[i]) by {
            if i < layouts[0].len() {
                assert(layouts[0][i].ty.accepts(resources[0][i]));
            } else {
                let j = i - layouts[0].len();
                assert(l.flatten()[j].ty.accepts(r.flatten()[j]));
            }
        }
    }
}

/// A layout and a bind group composed from the same resources, in the same
/// order, agree slot by slot: they have as many entries as each other, the
/// `i`-th entry of each sits at slot `i`, and the object at a slot is of the
/// kind that the layout entry at that slot asks for.
pub proof fn lemma_composed_slots_agree(
    layouts: Seq<Seq<BindGroupLayoutEntryUnbound>>,
    resources: Seq<Seq<BindingResource>>,
)
    requires
        layouts.len() == resources.len(),
        forall|k: int|
            0 <= k < layouts.len() ==> contribution_matches(#[trigger] layouts[k], resources[k]),
    ensures
        layouts.flatten().len() == resources.flatten().len(),
        layout_accepts(bound_layout(layouts.flatten()), bound_group(resources.flatten())),
        forall|i: int|
            0 <= i < layouts.flatten().len() && i < max_slots() ==> {
                &&& (#[trigger] bound_layout(layouts.flatten())[i]).binding == i
                &&& bound_group(resources.flatten())[i].binding == i
                &&& bound_layout(layouts.flatten())[i].ty == layouts.flatten()[i].ty
                &&& bound_group(resources.flatten())[i].resource == resources.flatten()[i]
            },
{
    lemma_flatten_matches(layouts, resources);
    let lf = layouts.flatten();
    let rf = resources.flatten();
    assert forall|i: int| 0 <= i < bound_layout(lf).len() implies {
        &&& (#[trigger] bound_layout(lf)[i]).binding == bound_group(rf)[i].binding
        &&& bound_layout(lf)[i].ty.accepts(bound_group(rf)[i].resource)
    } by {
        assert(lf[i].ty.accepts(rf[i]));
    }
}

/// Slots are decided by position alone: the entries that the first resources
/// contribute keep their slots whatever resources follow them.
pub proof fn lemma_slots_stable(
    first: Seq<Seq<BindGroupLayoutEntryUnbound>>,
    rest: Seq<Seq<BindGroupLayoutEntryUnbound>>,
)
    ensures
        first.flatten().len() <= (first + rest).flatten().len(),
        forall|i: int|
            0 <= i < first.flatten().len() ==> #[trigger] bound_layout((first + rest).flatten())[i]
                == bound_layout(first.flatten())[i],
{
    vstd::seq_lib::lemma_flatten_concat(first, rest);
}

/// Pixels along each side of the square tile that one workgroup covers.
pub const WORKGROUP_SIDE: u32 = 16;

/// The least number of tiles that cover `pixels` pixels: `pixels / 16`,
/// rounded up.
pub open spec fn tiles_for(pixels: int) -> int {
    (pixels + 15) / 16
}

/// The workgroups that cover an output of `size`, tile by tile: enough along
/// x for the width, enough along y for the height, one along z.
pub open spec fn dispatch_size(size: PhysicalSize) -> Workgroups {
    Workgroups {
        x: tiles_for(size.width as int) as u32,
        y: tiles_for(size.height as int) as u32,
        z: 1,
    }
}

/// Computes [`tiles_for`]. The tiles cover all the pixels, and one tile fewer
/// would leave some uncovered: a remainder narrower than a tile still gets a
/// tile of its own.
pub fn workgroup_count(pixels: u32) -> (tiles: u32)
    ensures
        tiles == tiles_for(pixels as int),
        tiles * 16 >= pixels,
        pixels > 0 ==> (tiles - 1) * 16 < pixels,
        pixels == 0 ==> tiles == 0,
{
    let whole: u32 = pixels / WORKGROUP_SIDE;
    if pixels % WORKGROUP_SIDE == 0 {
        whole
    } else {
        whole + 1
    }
}

/// The group indices of `count` bind groups set in order: `0, 1, 2, ...`.
pub open spec fn group_indices(count: nat) -> Seq<u32> {
    Seq::new(count, |i: int| i as u32)
}

/// What a compute pipeline is built from: the path of its shader and the
/// layouts of its bind groups, that of group 0 first.
#[derive(Debug)]
pub struct DemoPipelineConfig {
    pub shader_path: String,
    pub bind_group_layouts: Vec<BindGroupLayoutDescriptor>,
}

/// The compute pipeline that renders the volume into the output texture.
#[derive(Debug)]
pub struct DemoPipeline {
    pub pipeline: ComputePipelineDescriptor,
}

impl DemoPipeline {
    /// The layouts of the pipeline's bind groups, that of group 0 first.
    pub open spec fn layouts(&self) -> Seq<BindGroupLayoutDescriptor> {
        self.pipeline.layout.bind_group_layouts@
    }

    /// Whether the bind groups `groups`, set in order, fit the pipeline: there
    /// is one for each layout, and each can be bound against the layout at its
    /// index.
    pub open spec fn fits(&self, groups: Seq<BindGroupDescriptor>) -> bool {
        &&& groups.len() == self.layouts().len()
        &&& forall|g: int|
            0 <= g < groups.len() ==> layout_accepts(
                (#[trigger] self.layouts()[g]).entries@,
                groups[g].entries@,
            )
    }

    /// Decides [`DemoPipeline::fits`].
    pub fn accepts(&self, groups: &[BindGroupDescriptor]) -> (ok: bool)
        ensures
            ok == self.fits(groups@),
    {
        let layouts = &self.pipeline.layout.bind_group_layouts;
        if groups.len() != layouts.len() {
            return false;
        }
        let mut g: usize = 0;
        while g < groups.len()
            invariant
                layouts@ == self.layouts(),
                groups@.len() == layouts@.len(),
                g <= groups@.len(),
                forall|k: int|
                    0 <= k < g ==> layout_accepts(
                        (#[trigger] self.layouts()[k]).entries@,
                        groups@[k].entries@,
                    ),
            decreases groups@.len() - g,
        {
            if !layouts[g].accepts(&groups[g]) {
                return false;
            }
            g += 1;
        }
        true
    }

    /// Describes the compute pipeline for the shader at `config.shader_path`,
    /// whose text is `shader_contents`: the shader's entry point is `main`,
    /// and the pipeline's bind groups have the layouts of `config`, in that
    /// order.
    pub fn with_config(config: DemoPipelineConfig, shader_contents: String) -> (demo_pipeline: Self)
        ensures
            demo_pipeline.pipeline.label@ == "Compute Pipeline"@,
            demo_pipeline.pipeline.entry_point@ == "main"@,
            demo_pipeline.pipeline.module.label == config.shader_path,
            demo_pipeline.pipeline.module.source == shader_contents,
            demo_pipeline.pipeline.layout.label@ == "Compute Pipeline Layout"@,
            demo_pipeline.layouts() == config.bind_group_layouts@,
    {
        DemoPipeline {
            pipeline: ComputePipelineDescriptor {
                label: "Compute Pipeline".to_owned(),
                layout: PipelineLayoutDescriptor {
                    label: "Compute Pipeline Layout".to_owned(),
                    bind_group_layouts: config.bind_group_layouts,
                },
                module: ShaderModuleDescriptor { label: config.shader_path, source: shader_contents },
                entry_point: "main".to_owned(),
            },
        }
    }

    /// The commands of one compute pass over an output as large as the window
    /// of `ctx`: the `i`-th of `bind_groups` is set at group index `i`, and the
    /// output is covered tile by tile.
    pub fn compute_pass(&self, ctx: &GpuContext, bind_groups: &[BindGroupDescriptor]) -> (pass:
        ComputePassCommands)
        requires
            bind_groups@.len() <= max_slots(),
        ensures
            pass.label@ == "Compute Pass"@,
            pass.group_indices@ == group_indices(bind_groups@.len()),
            pass.workgroups == dispatch_size(ctx.size),
    {
        let mut indices: Vec<u32> = Vec::new();
        let mut i: usize = 0;
        while i < bind_groups.len()
            invariant
                i <= bind_groups@.len(),
                bind_groups@.len() <= max_slots(),
                indices@ == group_indices(i as nat),
            decreases bind_groups@.len() - i,
        {
            indices.push(i as u32);
            i += 1;
            assert(indices@ =~= group_indices(i as nat));
        }
        ComputePassCommands {
            label: "Compute Pass".to_owned(),
            group_indices: indices,
            workgroups: Workgroups {
                x: workgroup_count(ctx.size.width),
                y: workgroup_count(ctx.size.height),
                z: 1,
            },
        }
    }
}

/// The contributions of one resource, laid end to end, are that resource's
/// contribution.
pub proof fn lemma_flatten_one<A>(a: Seq<A>)
    ensures
        seq![a].flatten() == a,
{
    Seq::<Seq<A>>::empty().lemma_flatten_push(a);
    assert(Seq::<Seq<A>>::empty().push(a) =~= seq![a]);
    assert(Seq::<Seq<A>>::empty().flatten() =~= Seq::<A>::empty());
    assert(Seq::<A>::empty() + a =~= a);
}

/// The contributions of two resources, laid end to end, are the first
/// followed by the second.
pub proof fn lemma_flatten_two<A>(a: Seq<A>, b: Seq<A>)
    ensures
        seq![a, b].flatten() == a + b,
{
    lemma_flatten_one(a);
    seq![a].lemma_flatten_push(b);
    assert(seq![a].push(b) =~= seq![a, b]);
}

/// The contributions of three resources, laid end to end, are the first
/// followed by the second followed by the third.
pub proof fn lemma_flatten_three<A>(a: Seq<A>, b: Seq<A>, c: Seq<A>)
    ensures
        seq![a, b, c].flatten() == a + b + c,
{
    lemma_flatten_two(a, b);
    seq![a, b].lemma_flatten_push(c);
    assert(seq![a, b].push(c) =~= seq![a, b, c]);
}

/// The layout contributions `parts`, as sequences.
pub open spec fn layout_parts(parts: Seq<Vec<BindGroupLayoutEntryUnbound>>) -> Seq<
    Seq<BindGroupLayoutEntryUnbound>,
> {
    parts.map_values(|part: Vec<BindGroupLayoutEntryUnbound>| part@)
}

/// Composes a layout from owned layout contributions
/// (see [`layout_from_unbound_entries`]).
pub fn layout_from_parts(label: &str, parts: &Vec<Vec<BindGroupLayoutEntryUnbound>>) -> (layout:
    BindGroupLayoutDescriptor)
    requires
        layout_parts(parts@).flatten().len() <= max_slots(),
    ensures
        layout.label@ == label@,
        layout.entries@ == bound_layout(layout_parts(parts@).flatten()),
{
    let mut lists: Vec<&[BindGroupLayoutEntryUnbound]> = Vec::new();
    let mut k: usize = 0;
    while k < parts.len()
        invariant
            k <= parts@.len(),
            layout_lists(lists@) == layout_parts(parts@).subrange(0, k as int),
        decreases parts@.len() - k,
    {
        let part: &[BindGroupLayoutEntryUnbound] = parts[k].as_slice();
        let ghost before = layout_lists(lists@);
        lists.push(part);
        assert(layout_lists(lists@) =~= before.push(part@));
        k += 1;
        assert(layout_lists(lists@) =~= layout_parts(parts@).subrange(0, k as int));
    }
    assert(layout_parts(parts@).subrange(0, k as int) =~= layout_parts(parts@));
    layout_from_unbound_entries(label, lists.as_slice())
}

/// Why a demo cannot be set up.
#[derive(Debug, Clone, Copy, PartialEq, Eq)]
pub enum DemoError {
    /// There are not as many extra bind groups as extra layouts.
    GroupCount,
    /// Some bind group cannot be bound against the layout at its index.
    GroupMismatch,
}

/// What the base demo is built from, besides its own resources.
#[derive(Debug)]
pub struct BaseDemoConfig {
    /// Where the compute shader was read from.
    pub shader_path: String,
    /// A view of the texture to render into.
    pub output_texture: TextureViewId,
    /// Bind groups that follow the demo's own two, in group order.
    pub extra_bind_groups: Vec<BindGroupDescriptor>,
    /// The layouts of the extra bind groups, in the same order.
    pub extra_layouts: Vec<BindGroupLayoutDescriptor>,
}

/// The setup shared by the demos: the camera in bind group 0, the output and
/// debug textures in bind group 1, whatever a demo adds in the groups after,
/// and the compute pipeline over their layouts.
#[derive(Debug)]
pub struct BaseDemo {
    compute_pipeline: DemoPipeline,
    camera: GpuCamera,
    _debug_matrix: GpuDebugMatrix,
    _output_texture: GpuOutputTexture,
    bind_groups: Vec<BindGroupDescriptor>,
}

/// The layout of the base demo's bind group 0: the camera.
pub open spec fn base_inputs_layout() -> Seq<BindGroupLayoutEntryUnbound> {
    GpuCamera::layout_entries()
}

/// The layout of the base demo's bind group 1: the output texture, then the
/// debug texture.
pub open spec fn base_outputs_layout() -> Seq<BindGroupLayoutEntryUnbound> {
    GpuOutputTexture::layout_entries() + GpuDebugMatrix::layout_entries()
}

impl BaseDemo {
    /// The demo's compute pipeline.
    pub closed spec fn pipeline(&self) -> DemoPipeline {
        self.compute_pipeline
    }

    /// The demo's bind groups, that of group 0 first.
    pub closed spec fn groups(&self) -> Seq<BindGroupDescriptor> {
        self.bind_groups@
    }

    /// The demo's camera resource.
    pub closed spec fn camera_resource(&self) -> GpuCamera {
        self.camera
    }

    /// Every bind group can be bound against the pipeline's layout at its
    /// index, and every bind group has a group index.
    #[verifier::type_invariant]
    pub closed spec fn wf(&self) -> bool {
        &&& self.compute_pipeline.fits(self.bind_groups@)
        &&& self.bind_groups@.len() <= max_slots()
    }

    /// The demo's compute pipeline.
    pub fn compute_pipeline(&self) -> (pipeline: &DemoPipeline)
        ensures
            *pipeline == self.pipeline(),
    {
        &self.compute_pipeline
    }

    /// The demo's bind groups, that of group 0 first.
    pub fn bind_groups(&self) -> (groups: &Vec<BindGroupDescriptor>)
        ensures
            groups@ == self.groups(),
            self.pipeline().fits(groups@),
            groups@.len() <= max_slots(),
    {
        proof {
            use_type_invariant(self);
        }
        &self.bind_groups
    }

    /// Sets the demo up over the live `camera` and `debug_matrix` and the
    /// output view of `config`, for the compute shader whose text is
    /// `shader_contents`.
    ///
    /// Bind group 0 holds the camera and bind group 1 the output texture, then
    /// the debug texture; their layouts are composed from the same resources
    /// in the same order. The extra groups and layouts of `config` follow.
    /// Setting up fails where the extra groups do not fit the extra layouts.
    /// There must be a group index for every bind group.
    pub fn init(
        camera: GpuCamera,
        debug_matrix: GpuDebugMatrix,
        config: BaseDemoConfig,
        shader_contents: String,
    ) -> (demo: Result<Self, DemoError>)
        requires
            config.extra_bind_groups@.len() + 2 <= max_slots(),
        ensures
            demo == Err::<Self, DemoError>(DemoError::GroupCount)
                <==> config.extra_bind_groups@.len() != config.extra_layouts@.len(),
            demo == Err::<Self, DemoError>(DemoError::GroupMismatch) <==> {
                &&& config.extra_bind_groups@.len() == config.extra_layouts@.len()
                &&& exists|g: int|
                    0 <= g < config.extra_layouts@.len() && !layout_accepts(
                        (#[trigger] config.extra_layouts@[g]).entries@,
                        config.extra_bind_groups@[g].entries@,
                    )
            },
            demo matches Ok(d) ==> {
                &&& d.pipeline().fits(d.groups())
                &&& d.camera_resource() == camera
                &&& d.pipeline().pipeline.module.label == config.shader_path
                &&& d.pipeline().pipeline.module.source == shader_contents
                &&& d.pipeline().pipeline.entry_point@ == "main"@
                &&& d.pipeline().layouts().len() == 2 + config.extra_layouts@.len()
                &&& d.groups().len() == 2 + config.extra_bind_groups@.len()
                &&& d.pipeline().layouts()[0].label@ == "Base Inputs Layout"@
                &&& d.pipeline().layouts()[0].entries@ == bound_layout(base_inputs_layout())
                &&& d.pipeline().layouts()[1].label@ == "Base Outputs Layout"@
                &&& d.pipeline().layouts()[1].entries@ == bound_layout(base_outputs_layout())
                &&& d.pipeline().layouts().subrange(2, d.pipeline().layouts().len() as int)
                    == config.extra_layouts@
                &&& d.groups()[0].label@ == "Base Inputs Bind Group"@
                &&& d.groups()[0].entries@ == bound_group(camera.gpu_resources())
                &&& d.groups()[1].label@ == "Base Outputs Bind Group"@
                &&& d.groups()[1].entries@ == bound_group(
                    GpuOutputTexture::new_spec(config.output_texture).gpu_resources()
                        + debug_matrix.gpu_resources(),
                )
                &&& d.groups().subrange(2, d.groups().len() as int) == config.extra_bind_groups@
            },
    {
        let BaseDemoConfig {
            shader_path,
            output_texture: output_view,
            extra_bind_groups,
            extra_layouts,
        } = config;
        let mut extra_bind_groups = extra_bind_groups;
        let mut extra_layouts = extra_layouts;
        let ghost extra_groups_seq = extra_bind_groups@;
        let ghost extra_layouts_seq = extra_layouts@;
        if extra_bind_groups.len() != extra_layouts.len() {
            return Err(DemoError::GroupCount);
        }
        let output_texture = GpuOutputTexture::new(output_view);

        let mut input_parts: Vec<Vec<BindGroupLayoutEntryUnbound>> = Vec::new();
        input_parts.push(GpuCamera::bind_group_layout_entries());
        let mut output_parts: Vec<Vec<BindGroupLayoutEntryUnbound>> = Vec::new();
        output_parts.push(GpuOutputTexture::bind_group_layout_entries());
        output_parts.push(GpuDebugMatrix::bind_group_layout_entries());
        proof {
            assert(layout_parts(input_parts@) =~= seq![GpuCamera::layout_entries()]);
            lemma_flatten_one(GpuCamera::layout_entries());
            assert(layout_parts(output_parts@) =~= seq![
                GpuOutputTexture::layout_entries(),
                GpuDebugMatrix::layout_entries(),
            ]);
            lemma_flatten_two(GpuOutputTexture::layout_entries(), GpuDebugMatrix::layout_entries());
        }
        let base_inputs_layout = layout_from_parts("Base Inputs Layout", &input_parts);
        let base_outputs_layout = layout_from_parts("Base Outputs Layout", &output_parts);

        let mut input_resources: Vec<Vec<BindingResource>> = Vec::new();
        input_resources.push(camera.to_gpu_resources());
        let mut output_resources: Vec<Vec<BindingResource>> = Vec::new();
        output_resources.push(output_texture.to_gpu_resources());
        output_resources.push(debug_matrix.to_gpu_resources());
        proof {
            assert(resource_lists(input_resources@) =~= seq![camera.gpu_resources()]);
            lemma_flatten_one(camera.gpu_resources());
            assert(resource_lists(output_resources@) =~= seq![
                output_texture.gpu_resources(),
                debug_matrix.gpu_resources(),
            ]);
            lemma_flatten_two(output_texture.gpu_resources(), debug_matrix.gpu_resources());
            lemma_composed_slots_agree(
                layout_parts(input_parts@),
                resource_lists(input_resources@),
            );
            lemma_composed_slots_agree(
                layout_parts(output_parts@),
                resource_lists(output_resources@),
            );
        }
        let base_inputs_group = bindgroup_from_resources(
            "Base Inputs Bind Group",
            input_resources.as_slice(),
        );
        let base_outputs_group = bindgroup_from_resources(
            "Base Outputs Bind Group",
            output_resources.as_slice(),
        );

        let mut bind_group_layouts: Vec<BindGroupLayoutDescriptor> = Vec::new();
        bind_group_layouts.push(base_inputs_layout);
        bind_group_layouts.push(base_outputs_layout);
        bind_group_layouts.append(&mut extra_layouts);
        let mut bind_groups: Vec<BindGroupDescriptor> = Vec::new();
        bind_groups.push(base_inputs_group);
        bind_groups.push(base_outputs_group);
        bind_groups.append(&mut extra_bind_groups);

        let compute_pipeline = DemoPipeline::with_config(
            DemoPipelineConfig { shader_path, bind_group_layouts },
            shader_contents,
        );
        assert(compute_pipeline.layouts().subrange(2, compute_pipeline.layouts().len() as int)
            =~= extra_layouts_seq);
        assert(bind_groups@.subrange(2, bind_groups@.len() as int) =~= extra_groups_seq);
        if !compute_pipeline.accepts(bind_groups.as_slice()) {
            proof {
                let g = choose|g: int|
                    0 <= g < bind_groups@.len() && !layout_accepts(
                        (#[trigger] compute_pipeline.layouts()[g]).entries@,
                        bind_groups@[g].entries@,
                    );
                assert(g >= 2);
                assert(compute_pipeline.layouts()[g] == extra_layouts_seq[g - 2]);
                assert(bind_groups@[g] == extra_groups_seq[g - 2]);
            }
            return Err(DemoError::GroupMismatch);
        }
        proof {
            assert forall|g: int| 0 <= g < extra_layouts_seq.len() implies layout_accepts(
                (#[trigger] extra_layouts_seq[g]).entries@,
                extra_groups_seq[g].entries@,
            ) by {
                assert(compute_pipeline.layouts()[g + 2] == extra_layouts_seq[g]);
                assert(bind_groups@[g + 2] == extra_groups_seq[g]);
            }
        }
        Ok(
            BaseDemo {
                compute_pipeline,
                camera,
                _debug_matrix: debug_matrix,
                _output_texture: output_texture,
                bind_groups,
            },
        )
    }

    /// The write that brings the camera's uniform buffer up to date with the
    /// serialised camera `uniforms`. Nothing else changes from frame to frame.
    pub fn update_gpu_state(&self, uniforms: Vec<u8>) -> (write: BufferWrite)
        ensures
            write.buffer == self.camera_resource().buffer(),
            write.offset == 0,
            write.data@ == uniforms@,
    {
        self.camera.update(uniforms)
    }

    /// The commands of one compute pass: every bind group of the demo is set
    /// at its own index, and the window of `ctx` is covered tile by tile.
    pub fn compute_pass(&self, ctx: &GpuContext) -> (pass: ComputePassCommands)
        ensures
            pass.label@ == "Compute Pass"@,
            pass.group_indices@ == group_indices(self.groups().len()),
            pass.workgroups == dispatch_size(ctx.size),
    {
        proof {
            use_type_invariant(self);
        }
        self.compute_pipeline.compute_pass(ctx, self.bind_groups.as_slice())
    }
}

} // verus!
