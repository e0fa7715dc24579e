//! The render pipeline that shows the rendered texture on the surface.

use vstd::prelude::*;
use crate::demos::pipeline::group_indices;
use crate::demos::pipeline::layout_from_parts;
use crate::demos::pipeline::layout_parts;
use crate::demos::pipeline::lemma_composed_slots_agree;
use crate::demos::pipeline::lemma_flatten_one;
use crate::demos::pipeline::resource_lists;
use crate::gpu::layout_accepts;
use crate::gpu::BindGroupDescriptor;
use crate::gpu::BindGroupLayoutDescriptor;
use crate::gpu::BindingResource;
use crate::gpu::DrawRange;
use crate::gpu::PipelineLayoutDescriptor;
use crate::gpu::RenderPassCommands;
use crate::gpu::RenderPipelineDescriptor;
use crate::gpu::ShaderModuleDescriptor;
use crate::gpu_context::GpuContext;
use crate::gpu_resources::bound_group;
use crate::gpu_resources::bound_layout;
use crate::gpu_resources::texture::GpuReadTexture2D;
use crate::gpu_resources::BindGroupLayoutEntryUnbound;
use crate::gpu_resources::ToBindGroupEntries;
use crate::gpu_resources::ToGpuResources;

verus! {

/// Where the render shader lies, below the program's own directory.
pub const SHADER_PATH: &'static str = "shaders/render.wgsl";

/// Vertices of the two triangles that cover the surface.
pub const QUAD_VERTICES: u32 = 6;

/// The pipeline that draws the rendered texture over the whole surface, and
/// the bind group that holds that texture.
#[derive(Debug)]
pub struct RenderPipeline {
    pub pipeline: RenderPipelineDescriptor,
    pub input_texture_group: BindGroupDescriptor,
}

impl RenderPipeline {
    /// Describes the render pipeline for the surface of `ctx` and the render
    /// shader, whose text is `shader_contents`, and the bind group that offers
    /// `input_texture` to it.
    ///
    /// The pipeline has one bind group. Its layout and the bind group are both
    /// numbered from what `input_texture` contributes, so the group can be
    /// bound against the layout.
    pub fn init(ctx: &GpuContext, input_texture: &GpuReadTexture2D, shader_contents: String) -> (render:
        Self)
        ensures
            render.pipeline.label@ == "Render Pipeline"@,
            render.pipeline.module.label@ == SHADER_PATH@,
            render.pipeline.module.source == shader_contents,
            render.pipeline.vertex_entry_point@ == "vs_main"@,
            render.pipeline.fragment_entry_point@ == "fs_main"@,
            render.pipeline.target_format == ctx.surface_config.format,
            render.pipeline.layout.label@ == "Render Pipeline Layout"@,
            render.pipeline.layout.bind_group_layouts@.len() == 1,
            render.pipeline.layout.bind_group_layouts@[0].label@
                == "Render Input Texture Group Layout"@,
            render.pipeline.layout.bind_group_layouts@[0].entries@ == bound_layout(
                GpuReadTexture2D::layout_entries(),
            ),
            render.input_texture_group.label@ == "Render Bind Group"@,
            render.input_texture_group.entries@ == bound_group(input_texture.gpu_resources()),
            layout_accepts(
                render.pipeline.layout.bind_group_layouts@[0].entries@,
                render.input_texture_group.entries@,
            ),
    {
        let mut parts: Vec<Vec<BindGroupLayoutEntryUnbound>> = Vec::new();
        parts.push(GpuReadTexture2D::bind_group_layout_entries());
        let render_pipeline_resources: Vec<BindingResource> = input_texture.to_gpu_resources();
        proof {
            assert(layout_parts(parts@) =~= seq![GpuReadTexture2D::layout_entries()]);
            lemma_flatten_one(GpuReadTexture2D::layout_entries());
            lemma_flatten_one(input_texture.gpu_resources());
            lemma_composed_slots_agree(
                seq![GpuReadTexture2D::layout_entries()],
                seq![input_texture.gpu_resources()],
            );
        }
        let render_input_texture_layout = layout_from_parts(
            "Render Input Texture Group Layout",
            &parts,
        );
        let input_texture_group = BindGroupDescriptor {
            label: "Render Bind Group".to_owned(),
            entries: render_pipeline_resources.to_bind_group_entries(),
        };
        let mut bind_group_layouts: Vec<BindGroupLayoutDescriptor> = Vec::new();
        bind_group_layouts.push(render_input_texture_layout);
        RenderPipeline {
            pipeline: RenderPipelineDescriptor {
                label: "Render Pipeline".to_owned(),
                layout: PipelineLayoutDescriptor {
                    label: "Render Pipeline Layout".to_owned(),
                    bind_group_layouts,
                },
                module: ShaderModuleDescriptor {
                    label: SHADER_PATH.to_owned(),
                    source: shader_contents,
                },
                vertex_entry_point: "vs_main".to_owned(),
                fragment_entry_point: "fs_main".to_owned(),
                target_format: ctx.surface_config.format,
            },
            input_texture_group,
        }
    }

    /// The commands of one render pass: the input texture's bind group is set
    /// at group index 0, and the six vertices of the covering quad are drawn
    /// once.
    pub fn render_pass(&self) -> (pass: RenderPassCommands)
        ensures
            pass.label@ == "Render Pass"@,
            pass.group_indices@ == group_indices(1),
            pass.vertices == (DrawRange { start: 0, end: QUAD_VERTICES }),
            pass.instances == (DrawRange { start: 0, end: 1 }),
    {
        let mut indices: Vec<u32> = Vec::new();
        indices.push(0);
        assert(indices@ =~= group_indices(1));
        RenderPassCommands {
            label: "Render Pass".to_owned(),
            group_indices: indices,
            vertices: DrawRange { start: 0, end: QUAD_VERTICES },
            instances: DrawRange { start: 0, end: 1 },
        }
    }
}

} // verus!
