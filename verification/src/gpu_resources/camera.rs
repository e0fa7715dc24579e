//! The camera's uniform buffer.

use vstd::prelude::*;
use crate::gpu::BindingResource;
use crate::gpu::BindingType;
use crate::gpu::BufferBindingType;
use crate::gpu::BufferId;
use crate::gpu::BufferInitDescriptor;
use crate::gpu::BufferUsages;
use crate::gpu::BufferWrite;
use crate::gpu::ShaderStages;
use crate::gpu_resources::BindGroupLayoutEntryUnbound;
use crate::gpu_resources::ToGpuResources;

verus! {

/// The uniform buffer that carries the camera's matrices to the shader. It is
/// the one resource that is written again every frame.
#[derive(Debug, Clone, Copy, PartialEq, Eq)]
pub struct GpuCamera {
    camera_buffer: BufferId,
}

impl GpuCamera {
    /// The buffer behind the binding.
    pub closed spec fn buffer(&self) -> BufferId {
        self.camera_buffer
    }

    /// Describes the buffer to create, filled with the serialised camera
    /// `uniforms`.
    pub fn buffer_descriptor(uniforms: Vec<u8>) -> (desc: BufferInitDescriptor)
        ensures
            desc.label@ == "Camera Buffer"@,
            desc.contents@ == uniforms@,
            desc.usage == (BufferUsages { uniform: true, copy_dst: true }),
            Self::layout_entries()[0].ty.fits_buffer(desc.usage),
    {
        BufferInitDescriptor {
            label: "Camera Buffer".to_owned(),
            contents: uniforms,
            usage: BufferUsages { uniform: true, copy_dst: true },
        }
    }

    /// The camera resource over the live buffer `camera_buffer`.
    pub fn new(camera_buffer: BufferId) -> (camera: Self)
        ensures
            camera.buffer() == camera_buffer,
    {
        GpuCamera { camera_buffer }
    }

    /// The write that brings the buffer up to date with the serialised camera
    /// `uniforms`: the whole of them, from the buffer's start.
    pub fn update(&self, uniforms: Vec<u8>) -> (write: BufferWrite)
        ensures
            write.buffer == self.buffer(),
            write.offset == 0,
            write.data@ == uniforms@,
    {
        BufferWrite { buffer: self.camera_buffer, offset: 0, data: uniforms }
    }
}

impl ToGpuResources for GpuCamera {
    open spec fn layout_entries() -> Seq<BindGroupLayoutEntryUnbound> {
        seq![
            BindGroupLayoutEntryUnbound {
                visibility: ShaderStages { vertex: false, fragment: false, compute: true },
                ty: BindingType::Buffer {
                    ty: BufferBindingType::Uniform,
                    has_dynamic_offset: false,
                    min_binding_size: None,
                },
                count: None,
            },
        ]
    }

    closed spec fn gpu_resources(&self) -> Seq<BindingResource> {
        seq![BindingResource::Buffer(self.camera_buffer)]
    }

    proof fn lemma_contribution_matches(&self) {
    }

    fn bind_group_layout_entries() -> (entries: Vec<BindGroupLayoutEntryUnbound>) {
        let mut entries: Vec<BindGroupLayoutEntryUnbound> = Vec::new();
        entries.push(
            BindGroupLayoutEntryUnbound {
                visibility: ShaderStages::compute(),
                ty: BindingType::Buffer {
                    ty: BufferBindingType::Uniform,
                    has_dynamic_offset: false,
                    min_binding_size: None,
                },
                count: None,
            },
        );
        assert(entries@ =~= Self::layout_entries());
        entries
    }

    fn to_gpu_resources(&self) -> (resources: Vec<BindingResource>)
        ensures
            resources@ == seq![BindingResource::Buffer(self.buffer())],
    {
        let mut resources: Vec<BindingResource> = Vec::new();
        resources.push(BindingResource::Buffer(self.camera_buffer));
        assert(resources@ =~= self.gpu_resources());
        resources
    }
}

} // verus!
