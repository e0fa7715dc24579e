//! The renderer variants and the pipeline they share.

use vstd::prelude::*;
use crate::demos::pipeline::dispatch_size;
use crate::demos::pipeline::group_indices;
use crate::demos::pipeline::DemoError;
use crate::gpu::BufferId;
use crate::gpu::BufferWrite;
use crate::gpu::ComputePassCommands;
use crate::gpu::TextureViewId;
use crate::gpu_context::GpuContext;

pub mod pipeline;
pub mod simple;

verus! {

/// A renderer variant: something that can be set up over live resources,
/// brought up to date before a frame, and asked for the frame's compute pass.
pub trait ComputeDemo: Sized {
    /// The live resources that the demo takes over, besides the output view.
    type Resources;

    /// The uniform buffer that the demo rewrites every frame.
    spec fn frame_buffer(&self) -> BufferId;

    /// How many bind groups the demo's pipeline takes.
    spec fn group_count(&self) -> nat;

    /// Sets the demo up over `resources`, rendering into the texture behind
    /// `output_texture_view` with the compute shader whose text is
    /// `shader_contents`.
    fn init(
        resources: Self::Resources,
        output_texture_view: TextureViewId,
        shader_contents: String,
    ) -> (demo: Result<Self, DemoError>)
    ;

    /// The write that brings the demo's GPU state up to date with the
    /// serialised camera `uniforms`: the whole of them, at the start of the
    /// demo's per-frame buffer, and nothing else.
    fn update_gpu_state(&self, uniforms: Vec<u8>) -> (write: BufferWrite)
        ensures
            write.buffer == self.frame_buffer(),
            write.offset == 0,
            write.data@ == uniforms@,
    ;

    /// The commands of one compute pass: every bind group of the demo is set
    /// at its own index, and the window of `ctx` is covered tile by tile.
    fn compute_pass(&self, ctx: &GpuContext) -> (pass: ComputePassCommands)
        ensures
            pass.group_indices@ == group_indices(self.group_count()),
            pass.workgroups == dispatch_size(ctx.size),
    ;
}

} // verus!
