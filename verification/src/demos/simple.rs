//! The plain raymarcher: a density volume classified by a transfer function.

use vstd::prelude::*;
use crate::demos::pipeline::bindgroup_from_resources;
use crate::demos::pipeline::layout_from_parts;
use crate::demos::pipeline::layout_parts;
use crate::demos::pipeline::lemma_composed_slots_agree;
use crate::demos::pipeline::lemma_flatten_three;
use crate::demos::pipeline::lemma_flatten_two;
use crate::demos::pipeline::resource_lists;
use crate::demos::pipeline::DemoError;
use crate::demos::pipeline::DemoPipeline;
use crate::demos::pipeline::DemoPipelineConfig;
use crate::demos::ComputeDemo;
use crate::gpu::BindGroupDescriptor;
use crate::gpu::BindGroupLayoutDescriptor;
use crate::gpu::BindingResource;
use crate::gpu::BufferId;
use crate::gpu::BufferWrite;
use crate::gpu::ComputePassCommands;
use crate::gpu::TextureViewId;
use crate::gpu_context::GpuContext;
use crate::gpu_resources::bound_group;
use crate::gpu_resources::bound_layout;
use crate::gpu_resources::camera::GpuCamera;
use crate::gpu_resources::debug_matrix::GpuDebugMatrix;
use crate::gpu_resources::max_slots;
use crate::gpu_resources::output_texture::GpuOutputTexture;
use crate::gpu_resources::transfer_function::GPUTransferFunction;
use crate::gpu_resources::volume::GpuVolume;
use crate::gpu_resources::BindGroupLayoutEntryUnbound;
use crate::gpu_resources::ToGpuResources;

pub mod importance;

verus! {

/// Where the demo's volume lies, below the program's own directory.
pub const VOLUME_PATH: &'static str = "assets/bonsai_256x256x256_uint8.raw";

/// Where the demo's compute shader lies, below the program's own directory.
pub const SHADER_PATH: &'static str = "shaders/simple_compute.wgsl";

/// The live resources that the simple demo is set up over.
#[derive(Debug, Clone, Copy)]
pub struct SimpleResources {
    pub volume: GpuVolume,
    pub transfer_function: GPUTransferFunction,
    pub camera: GpuCamera,
    pub debug_matrix: GpuDebugMatrix,
}

/// The simple demo: the volume, the camera and the transfer function in bind
/// group 0, the output and debug textures in bind group 1.
#[derive(Debug)]
pub struct Simple {
    compute_pipeline: DemoPipeline,
    volume: GpuVolume,
    transfer_function: GPUTransferFunction,
    camera: GpuCamera,
    debug_matrix: GpuDebugMatrix,
    output_texture: GpuOutputTexture,
    bind_groups: Vec<BindGroupDescriptor>,
}

/// The layout of the simple demo's bind group 0: the volume, the camera, then
/// the transfer function.
pub open spec fn simple_inputs_layout() -> Seq<BindGroupLayoutEntryUnbound> {
    GpuVolume::layout_entries() + GpuCamera::layout_entries()
        + GPUTransferFunction::layout_entries()
}

/// The layout of the simple demo's bind group 1: the output texture, then the
/// debug texture.
pub open spec fn simple_outputs_layout() -> Seq<BindGroupLayoutEntryUnbound> {
    GpuOutputTexture::layout_entries() + GpuDebugMatrix::layout_entries()
}

impl Simple {
    /// The demo's compute pipeline.
    pub closed spec fn pipeline(&self) -> DemoPipeline {
        self.compute_pipeline
    }

    /// The demo's bind groups, that of group 0 first.
    pub closed spec fn groups(&self) -> Seq<BindGroupDescriptor> {
        self.bind_groups@
    }

    /// The resources that the demo was set up over.
    pub closed spec fn resources(&self) -> SimpleResources {
        SimpleResources {
            volume: self.volume,
            transfer_function: self.transfer_function,
            camera: self.camera,
            debug_matrix: self.debug_matrix,
        }
    }

    /// The output texture that the demo renders into.
    pub closed spec fn output(&self) -> GpuOutputTexture {
        self.output_texture
    }

    /// Both bind groups are composed from the demo's resources, as the
    /// pipeline's layouts are, and so can be bound against them.
    #[verifier::type_invariant]
    pub closed spec fn wf(&self) -> bool {
        &&& self.bind_groups@.len() == 2
        &&& self.compute_pipeline.layouts().len() == 2
        &&& self.compute_pipeline.layouts()[0].entries@ == bound_layout(simple_inputs_layout())
        &&& self.compute_pipeline.layouts()[1].entries@ == bound_layout(simple_outputs_layout())
        &&& self.bind_groups@[0].entries@ == bound_group(
            self.volume.gpu_resources() + self.camera.gpu_resources()
                + self.transfer_function.gpu_resources(),
        )
        &&& self.bind_groups@[1].entries@ == bound_group(
            self.output_texture.gpu_resources() + self.debug_matrix.gpu_resources(),
        )
        &&& self.compute_pipeline.fits(self.bind_groups@)
    }

    /// The demo's compute pipeline: two bind groups, the inputs and the
    /// outputs.
    pub fn compute_pipeline(&self) -> (pipeline: &DemoPipeline)
        ensures
            *pipeline == self.pipeline(),
            pipeline.layouts().len() == 2,
            pipeline.layouts()[0].entries@ == bound_layout(simple_inputs_layout()),
            pipeline.layouts()[1].entries@ == bound_layout(simple_outputs_layout()),
    {
        proof {
            use_type_invariant(self);
        }
        &self.compute_pipeline
    }

    /// The demo's bind groups, the inputs first and the outputs second. They
    /// fit the pipeline.
    pub fn bind_groups(&self) -> (groups: &Vec<BindGroupDescriptor>)
        ensures
            groups@ == self.groups(),
            groups@.len() == 2,
            self.pipeline().fits(groups@),
            groups@[0].entries@ == bound_group(
                self.resources().volume.gpu_resources() + self.resources().camera.gpu_resources()
                    + self.resources().transfer_function.gpu_resources(),
            ),
            groups@[1].entries@ == bound_group(
                self.output().gpu_resources() + self.resources().debug_matrix.gpu_resources(),
            ),
    {
        proof {
            use_type_invariant(self);
        }
        &self.bind_groups
    }
}

impl ComputeDemo for Simple {
    type Resources = SimpleResources;

    closed spec fn frame_buffer(&self) -> BufferId {
        self.camera.buffer()
    }

    closed spec fn group_count(&self) -> nat {
        self.bind_groups@.len()
    }

    /// Setting up the simple demo always succeeds.
    fn init(
        resources: SimpleResources,
        output_texture_view: TextureViewId,
        shader_contents: String,
    ) -> (demo: Result<Self, DemoError>)
        ensures
            demo matches Ok(d) && {
                &&& d.resources() == resources
                &&& d.output() == GpuOutputTexture::new_spec(output_texture_view)
                &&& d.frame_buffer() == resources.camera.buffer()
                &&& d.group_count() == 2
                &&& d.pipeline().pipeline.module.label@ == SHADER_PATH@
                &&& d.pipeline().pipeline.module.source == shader_contents
                &&& d.pipeline().pipeline.entry_point@ == "main"@
            },
    {
        let volume = resources.volume;
        let transfer_function = resources.transfer_function;
        let camera = resources.camera;
        let debug_matrix = resources.debug_matrix;
        let output_texture = GpuOutputTexture::new(output_texture_view);

        let mut base_inputs: Vec<Vec<BindGroupLayoutEntryUnbound>> = Vec::new();
        base_inputs.push(GpuVolume::bind_group_layout_entries());
        base_inputs.push(GpuCamera::bind_group_layout_entries());
        base_inputs.push(GPUTransferFunction::bind_group_layout_entries());
        let mut base_outputs: Vec<Vec<BindGroupLayoutEntryUnbound>> = Vec::new();
        base_outputs.push(GpuOutputTexture::bind_group_layout_entries());
        base_outputs.push(GpuDebugMatrix::bind_group_layout_entries());
        proof {
            assert(layout_parts(base_inputs@) =~= seq![
                GpuVolume::layout_entries(),
                GpuCamera::layout_entries(),
                GPUTransferFunction::layout_entries(),
            ]);
            lemma_flatten_three(
                GpuVolume::layout_entries(),
                GpuCamera::layout_entries(),
                GPUTransferFunction::layout_entries(),
            );
            assert(layout_parts(base_outputs@) =~= seq![
                GpuOutputTexture::layout_entries(),
                GpuDebugMatrix::layout_entries(),
            ]);
            lemma_flatten_two(GpuOutputTexture::layout_entries(), GpuDebugMatrix::layout_entries());
        }
        let base_inputs_layout = layout_from_parts("Base Inputs Layout", &base_inputs);
        let base_outputs_layout = layout_from_parts("Base Outputs Layout", &base_outputs);

        let mut base_inputs_resources: Vec<Vec<BindingResource>> = Vec::new();
        base_inputs_resources.push(volume.to_gpu_resources());
        base_inputs_resources.push(camera.to_gpu_resources());
        base_inputs_resources.push(transfer_function.to_gpu_resources());
        let mut base_outputs_resources: Vec<Vec<BindingResource>> = Vec::new();
        base_outputs_resources.push(output_texture.to_gpu_resources());
        base_outputs_resources.push(debug_matrix.to_gpu_resources());
        proof {
            assert(resource_lists(base_inputs_resources@) =~= seq![
                volume.gpu_resources(),
                camera.gpu_resources(),
                transfer_function.gpu_resources(),
            ]);
            lemma_flatten_three(
                volume.gpu_resources(),
                camera.gpu_resources(),
                transfer_function.gpu_resources(),
            );
            assert(resource_lists(base_outputs_resources@) =~= seq![
                output_texture.gpu_resources(),
                debug_matrix.gpu_resources(),
            ]);
            lemma_flatten_two(output_texture.gpu_resources(), debug_matrix.gpu_resources());
            lemma_composed_slots_agree(
                layout_parts(base_inputs@),
                resource_lists(base_inputs_resources@),
            );
            lemma_composed_slots_agree(
                layout_parts(base_outputs@),
                resource_lists(base_outputs_resources@),
            );
        }
        let base_inputs_group = bindgroup_from_resources(
            "Base Inputs Bind Group",
            base_inputs_resources.as_slice(),
        );
        let base_outputs_group = bindgroup_from_resources(
            "Base Outputs Bind Group",
            base_outputs_resources.as_slice(),
        );

        let mut bind_group_layouts: Vec<BindGroupLayoutDescriptor> = Vec::new();
        bind_group_layouts.push(base_inputs_layout);
        bind_group_layouts.push(base_outputs_layout);
        let mut bind_groups: Vec<BindGroupDescriptor> = Vec::new();
        bind_groups.push(base_inputs_group);
        bind_groups.push(base_outputs_group);

        let compute_pipeline = DemoPipeline::with_config(
            DemoPipelineConfig { shader_path: SHADER_PATH.to_owned(), bind_group_layouts },
            shader_contents,
        );
        Ok(
            Simple {
                compute_pipeline,
                volume,
                transfer_function,
                camera,
                debug_matrix,
                output_texture,
                bind_groups,
            },
        )
    }

    fn update_gpu_state(&self, uniforms: Vec<u8>) -> (write: BufferWrite) {
        self.camera.update(uniforms)
    }

    fn compute_pass(&self, ctx: &GpuContext) -> (pass: ComputePassCommands)
        ensures
            pass.label@ == "Compute Pass"@,
            pass.group_indices@ == seq![0u32, 1u32],
    {
        proof {
            use_type_invariant(self);
        }
        let pass = self.compute_pipeline.compute_pass(ctx, self.bind_groups.as_slice());
        assert(pass.group_indices@ =~= seq![0u32, 1u32]);
        pass
    }
}

} // verus!
