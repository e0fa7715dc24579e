use volym::demos::pipeline::bindgroup_from_resources;
use volym::demos::pipeline::layout_from_parts;
use volym::demos::pipeline::workgroup_count;
use volym::demos::pipeline::BaseDemo;
use volym::demos::pipeline::BaseDemoConfig;
use volym::demos::pipeline::DemoError;
use volym::demos::pipeline::DemoPipeline;
use volym::demos::pipeline::DemoPipelineConfig;
use volym::demos::pipeline::WORKGROUP_SIDE;
use volym::demos::simple::Simple;
use volym::demos::simple::SimpleResources;
use volym::demos::ComputeDemo;
use volym::gpu::BindGroupDescriptor;
use volym::gpu::BindGroupLayoutDescriptor;
use volym::gpu::BindingResource;
use volym::gpu::BufferId;
use volym::gpu::DrawRange;
use volym::gpu::SamplerId;
use volym::gpu::TextureFormat;
use volym::gpu::TextureId;
use volym::gpu::TextureViewId;
use volym::gpu::Workgroups;
use volym::gpu_context::GpuContext;
use volym::gpu_context::PhysicalSize;
use volym::gpu_resources::camera::GpuCamera;
use volym::gpu_resources::debug_matrix::GpuDebugMatrix;
use volym::gpu_resources::parameters::GpuParameters;
use volym::gpu_resources::texture::GpuReadTexture2D;
use volym::gpu_resources::transfer_function::GPUTransferFunction;
use volym::gpu_resources::volume::GpuVolume;
use volym::gpu_resources::ToGpuResources;
use volym::render_pipeline::RenderPipeline;

fn context(width: u32, height: u32) -> GpuContext {
    GpuContext::new(PhysicalSize { width, height }, TextureFormat::Rgba8Unorm)
}

fn base_config(
    extra_bind_groups: Vec<BindGroupDescriptor>,
    extra_layouts: Vec<BindGroupLayoutDescriptor>,
) -> BaseDemoConfig {
    BaseDemoConfig {
        shader_path: "shaders/base.wgsl".to_string(),
        output_texture: TextureViewId(20),
        extra_bind_groups,
        extra_layouts,
    }
}

fn volume_extra() -> (BindGroupLayoutDescriptor, BindGroupDescriptor) {
    let volume = GpuVolume::init(TextureViewId(30), SamplerId(31));
    let parameters = GpuParameters::new(BufferId(32));
    let layout = layout_from_parts(
        "Volume Layout",
        &vec![GpuVolume::bind_group_layout_entries(), GpuParameters::bind_group_layout_entries()],
    );
    let group = bindgroup_from_resources(
        "Volume Group",
        &[volume.to_gpu_resources(), parameters.to_gpu_resources()],
    );
    (layout, group)
}

#[test]
fn dispatch_covers_full_hd() {
    assert_eq!(workgroup_count(1920), 120);
    assert_eq!(workgroup_count(1080), 68);
    let pipeline = DemoPipeline::with_config(
        DemoPipelineConfig { shader_path: "s".to_string(), bind_group_layouts: Vec::new() },
        String::new(),
    );
    let pass = pipeline.compute_pass(&context(1920, 1080), &[]);
    assert_eq!(pass.workgroups, Workgroups { x: 120, y: 68, z: 1 });
}

#[test]
fn dispatch_covers_a_remainder_with_one_more_tile() {
    assert_eq!(workgroup_count(17), 2);
    let pipeline = DemoPipeline::with_config(
        DemoPipelineConfig { shader_path: "s".to_string(), bind_group_layouts: Vec::new() },
        String::new(),
    );
    let pass = pipeline.compute_pass(&context(17, 17), &[]);
    assert_eq!(pass.workgroups, Workgroups { x: 2, y: 2, z: 1 });
}

#[test]
fn dispatch_at_the_edges() {
    assert_eq!(WORKGROUP_SIDE, 16);
    assert_eq!(workgroup_count(0), 0);
    assert_eq!(workgroup_count(1), 1);
    assert_eq!(workgroup_count(15), 1);
    assert_eq!(workgroup_count(16), 1);
    assert_eq!(workgroup_count(32), 2);
    assert_eq!(workgroup_count(33), 3);
    assert_eq!(workgroup_count(u32::MAX), 268_435_456);
    assert_eq!(workgroup_count(u32::MAX - 15), 268_435_455);
}

#[test]
fn dispatch_always_covers_and_never_overshoots() {
    for pixels in 0u32..2000 {
        let tiles = workgroup_count(pixels);
        assert!(tiles as u64 * 16 >= pixels as u64);
        if pixels > 0 {
            assert!((tiles as u64 - 1) * 16 < pixels as u64);
        }
    }
}

#[test]
fn pipeline_keeps_layout_order_and_entry_point() {
    let (layout, _) = volume_extra();
    let camera_layout = layout_from_parts("Camera", &vec![GpuCamera::bind_group_layout_entries()]);
    let pipeline = DemoPipeline::with_config(
        DemoPipelineConfig {
            shader_path: "shaders/x.wgsl".to_string(),
            bind_group_layouts: vec![camera_layout.clone(), layout.clone()],
        },
        "fn main() {}".to_string(),
    );
    assert_eq!(pipeline.pipeline.label, "Compute Pipeline");
    assert_eq!(pipeline.pipeline.entry_point, "main");
    assert_eq!(pipeline.pipeline.module.label, "shaders/x.wgsl");
    assert_eq!(pipeline.pipeline.module.source, "fn main() {}");
    assert_eq!(pipeline.pipeline.layout.label, "Compute Pipeline Layout");
    assert_eq!(pipeline.pipeline.layout.bind_group_layouts, vec![camera_layout, layout]);
}

#[test]
fn compute_pass_sets_groups_at_their_positions() {
    let (layout, group) = volume_extra();
    let pipeline = DemoPipeline::with_config(
        DemoPipelineConfig {
            shader_path: "s".to_string(),
            bind_group_layouts: vec![layout.clone(), layout.clone(), layout],
        },
        String::new(),
    );
    let groups = vec![group.clone(), group.clone(), group];
    assert!(pipeline.accepts(&groups));
    let pass = pipeline.compute_pass(&context(640, 480), &groups);
    assert_eq!(pass.label, "Compute Pass");
    assert_eq!(pass.group_indices, vec![0, 1, 2]);
    assert_eq!(pass.workgroups, Workgroups { x: 40, y: 30, z: 1 });
}

#[test]
fn pipeline_rejects_groups_that_do_not_fit() {
    let (layout, group) = volume_extra();
    let camera_layout = layout_from_parts("Camera", &vec![GpuCamera::bind_group_layout_entries()]);
    let pipeline = DemoPipeline::with_config(
        DemoPipelineConfig {
            shader_path: "s".to_string(),
            bind_group_layouts: vec![camera_layout, layout],
        },
        String::new(),
    );
    let camera_group =
        bindgroup_from_resources("c", &[GpuCamera::new(BufferId(0)).to_gpu_resources()]);
    assert!(pipeline.accepts(&[camera_group.clone(), group.clone()]));
    assert!(!pipeline.accepts(&[group.clone(), camera_group.clone()]));
    assert!(!pipeline.accepts(&[camera_group.clone()]));
    assert!(!pipeline.accepts(&[camera_group.clone(), group.clone(), group]));
    assert!(!pipeline.accepts(&[]));
}

#[test]
fn base_demo_without_extras() {
    let camera = GpuCamera::new(BufferId(1));
    let debug = GpuDebugMatrix::new(TextureViewId(2));
    let demo = BaseDemo::init(camera, debug, base_config(Vec::new(), Vec::new()), "code".to_string())
        .unwrap();
    let pipeline = demo.compute_pipeline();
    assert_eq!(pipeline.pipeline.module.label, "shaders/base.wgsl");
    assert_eq!(pipeline.pipeline.module.source, "code");
    assert_eq!(pipeline.pipeline.entry_point, "main");
    let layouts = &pipeline.pipeline.layout.bind_group_layouts;
    assert_eq!(layouts.len(), 2);
    assert_eq!(layouts[0].label, "Base Inputs Layout");
    assert_eq!(layouts[1].label, "Base Outputs Layout");
    assert_eq!(layouts[0].entries.len(), 1);
    assert_eq!(layouts[1].entries.len(), 2);
    let groups = demo.bind_groups();
    assert_eq!(groups.len(), 2);
    assert_eq!(groups[0].label, "Base Inputs Bind Group");
    assert_eq!(groups[1].label, "Base Outputs Bind Group");
    let inputs: Vec<BindingResource> = groups[0].entries.iter().map(|e| e.resource).collect();
    assert_eq!(inputs, vec![BindingResource::Buffer(BufferId(1))]);
    let outputs: Vec<BindingResource> = groups[1].entries.iter().map(|e| e.resource).collect();
    assert_eq!(
        outputs,
        vec![
            BindingResource::TextureView(TextureViewId(20)),
            BindingResource::TextureView(TextureViewId(2)),
        ]
    );
    assert_eq!(groups[1].entries[0].binding, 0);
    assert_eq!(groups[1].entries[1].binding, 1);
    assert!(pipeline.accepts(groups));
    let pass = demo.compute_pass(&context(1200, 768));
    assert_eq!(pass.group_indices, vec![0, 1]);
    assert_eq!(pass.workgroups, Workgroups { x: 75, y: 48, z: 1 });
}

#[test]
fn base_demo_with_extras() {
    let (layout, group) = volume_extra();
    let demo = BaseDemo::init(
        GpuCamera::new(BufferId(1)),
        GpuDebugMatrix::new(TextureViewId(2)),
        base_config(vec![group.clone()], vec![layout.clone()]),
        String::new(),
    )
    .unwrap();
    assert_eq!(demo.compute_pipeline().pipeline.layout.bind_group_layouts.len(), 3);
    assert_eq!(demo.compute_pipeline().pipeline.layout.bind_group_layouts[2], layout);
    assert_eq!(demo.bind_groups().len(), 3);
    assert_eq!(demo.bind_groups()[2], group);
    assert!(demo.compute_pipeline().accepts(demo.bind_groups()));
    assert_eq!(demo.compute_pass(&context(16, 16)).group_indices, vec![0, 1, 2]);
}

#[test]
fn base_demo_refuses_unequal_extras() {
    let (layout, group) = volume_extra();
    let result = BaseDemo::init(
        GpuCamera::new(BufferId(1)),
        GpuDebugMatrix::new(TextureViewId(2)),
        base_config(vec![group.clone()], Vec::new()),
        String::new(),
    );
    assert_eq!(result.err(), Some(DemoError::GroupCount));
    let result = BaseDemo::init(
        GpuCamera::new(BufferId(1)),
        GpuDebugMatrix::new(TextureViewId(2)),
        base_config(vec![group], vec![layout.clone(), layout]),
        String::new(),
    );
    assert_eq!(result.err(), Some(DemoError::GroupCount));
}

#[test]
fn base_demo_refuses_extras_that_do_not_fit() {
    let (layout, group) = volume_extra();
    let camera_group =
        bindgroup_from_resources("c", &[GpuCamera::new(BufferId(0)).to_gpu_resources()]);
    let result = BaseDemo::init(
        GpuCamera::new(BufferId(1)),
        GpuDebugMatrix::new(TextureViewId(2)),
        base_config(vec![group, camera_group], vec![layout.clone(), layout]),
        String::new(),
    );
    assert_eq!(result.err(), Some(DemoError::GroupMismatch));
}

#[test]
fn base_demo_rewrites_only_the_camera_buffer() {
    let demo = BaseDemo::init(
        GpuCamera::new(BufferId(41)),
        GpuDebugMatrix::new(TextureViewId(2)),
        base_config(Vec::new(), Vec::new()),
        String::new(),
    )
    .unwrap();
    let write = demo.update_gpu_state(vec![1, 2, 3, 4]);
    assert_eq!(write.buffer, BufferId(41));
    assert_eq!(write.offset, 0);
    assert_eq!(write.data, vec![1, 2, 3, 4]);
}

fn simple() -> Simple {
    let resources = SimpleResources {
        volume: GpuVolume::init(TextureViewId(1), SamplerId(2)),
        transfer_function: GPUTransferFunction::new_texture_1d_rgbt(TextureViewId(3), SamplerId(4)),
        camera: GpuCamera::new(BufferId(5)),
        debug_matrix: GpuDebugMatrix::new(TextureViewId(6)),
    };
    Simple::init(resources, TextureViewId(7), "compute".to_string()).unwrap()
}

#[test]
fn simple_demo_binds_inputs_then_outputs() {
    let demo = simple();
    let pipeline = demo.compute_pipeline();
    assert_eq!(pipeline.pipeline.module.label, "shaders/simple_compute.wgsl");
    assert_eq!(pipeline.pipeline.module.source, "compute");
    assert_eq!(pipeline.pipeline.entry_point, "main");
    let layouts = &pipeline.pipeline.layout.bind_group_layouts;
    assert_eq!(layouts.len(), 2);
    assert_eq!(layouts[0].entries.len(), 5);
    assert_eq!(layouts[1].entries.len(), 2);
    let groups = demo.bind_groups();
    let inputs: Vec<(u32, BindingResource)> =
        groups[0].entries.iter().map(|e| (e.binding, e.resource)).collect();
    assert_eq!(
        inputs,
        vec![
            (0, BindingResource::TextureView(TextureViewId(1))),
            (1, BindingResource::Sampler(SamplerId(2))),
            (2, BindingResource::Buffer(BufferId(5))),
            (3, BindingResource::TextureView(TextureViewId(3))),
            (4, BindingResource::Sampler(SamplerId(4))),
        ]
    );
    let outputs: Vec<(u32, BindingResource)> =
        groups[1].entries.iter().map(|e| (e.binding, e.resource)).collect();
    assert_eq!(
        outputs,
        vec![
            (0, BindingResource::TextureView(TextureViewId(7))),
            (1, BindingResource::TextureView(TextureViewId(6))),
        ]
    );
    assert!(pipeline.accepts(groups));
    for (layout, group) in layouts.iter().zip(groups.iter()) {
        assert!(layout.accepts(group));
    }
}

#[test]
fn simple_demo_frame() {
    let demo = simple();
    let write = demo.update_gpu_state(vec![9; 208]);
    assert_eq!(write.buffer, BufferId(5));
    assert_eq!(write.offset, 0);
    assert_eq!(write.data.len(), 208);
    let pass = demo.compute_pass(&context(1920, 1080));
    assert_eq!(pass.group_indices, vec![0, 1]);
    assert_eq!(pass.workgroups, Workgroups { x: 120, y: 68, z: 1 });
}

#[test]
fn render_pipeline_draws_the_input_texture() {
    let read = GpuReadTexture2D::new(TextureId(1), TextureViewId(2), SamplerId(3));
    let render = RenderPipeline::init(&context(800, 600), &read, "render".to_string());
    assert_eq!(render.pipeline.label, "Render Pipeline");
    assert_eq!(render.pipeline.module.label, "shaders/render.wgsl");
    assert_eq!(render.pipeline.module.source, "render");
    assert_eq!(render.pipeline.vertex_entry_point, "vs_main");
    assert_eq!(render.pipeline.fragment_entry_point, "fs_main");
    assert_eq!(render.pipeline.target_format, TextureFormat::Rgba8Unorm);
    assert_eq!(render.pipeline.layout.label, "Render Pipeline Layout");
    let layouts = &render.pipeline.layout.bind_group_layouts;
    assert_eq!(layouts.len(), 1);
    assert_eq!(layouts[0].label, "Render Input Texture Group Layout");
    assert_eq!(render.input_texture_group.label, "Render Bind Group");
    let bound: Vec<(u32, BindingResource)> =
        render.input_texture_group.entries.iter().map(|e| (e.binding, e.resource)).collect();
    assert_eq!(
        bound,
        vec![
            (0, BindingResource::TextureView(TextureViewId(2))),
            (1, BindingResource::Sampler(SamplerId(3))),
        ]
    );
    assert!(layouts[0].accepts(&render.input_texture_group));
    let pass = render.render_pass();
    assert_eq!(pass.label, "Render Pass");
    assert_eq!(pass.group_indices, vec![0]);
    assert_eq!(pass.vertices, DrawRange { start: 0, end: 6 });
    assert_eq!(pass.instances, DrawRange { start: 0, end: 1 });
}

#[test]
fn a_uniform_volume_and_a_red_transfer_function_reach_the_shader() {
    // load: a volume of density 128 throughout, and a transfer function that
    // makes density 128 opaque red
    let volume_upload = GpuVolume::upload(
        vec![128; volym::volume_data::VOLUME_LEN],
        volym::gpu_resources::FlipMode::Unchanged,
    );
    assert!(volume_upload.data.iter().all(|density| *density == 128));
    let red = volym::gpu_resources::transfer_function::Rgba8 { r: 255, g: 0, b: 0, a: 255 };
    let clear = volym::gpu_resources::transfer_function::Rgba8 { r: 0, g: 0, b: 0, a: 0 };
    let mut texels = vec![clear; 256];
    texels[128] = red;
    let tf_upload = GPUTransferFunction::upload(&texels);
    let density = volume_upload.data[12345] as usize;
    assert_eq!(&tf_upload.data[4 * density..4 * density + 4], &[255, 0, 0, 255]);
    assert_eq!(tf_upload.size, GPUTransferFunction::texture_descriptor(255).size);
    assert_eq!(volume_upload.size, GpuVolume::texture_descriptor().size);

    // compose: the volume and the transfer function sit where the layout
    // expects a texture and a sampler each, the output where it expects a
    // storage texture
    let demo = simple();
    let layouts = &demo.compute_pipeline().pipeline.layout.bind_group_layouts;
    let groups = demo.bind_groups();
    assert!(demo.compute_pipeline().accepts(groups));
    assert_eq!(groups[0].entries[0].resource, BindingResource::TextureView(TextureViewId(1)));
    assert_eq!(groups[0].entries[3].resource, BindingResource::TextureView(TextureViewId(3)));
    assert_eq!(groups[1].entries[0].resource, BindingResource::TextureView(TextureViewId(7)));
    assert!(layouts[0].entries[0].ty.admits(&groups[0].entries[0].resource));
    assert!(layouts[0].entries[3].ty.admits(&groups[0].entries[3].resource));
    assert!(layouts[1].entries[0].ty.admits(&groups[1].entries[0].resource));

    // dispatch: one pass covers every pixel of the output
    let pass = demo.compute_pass(&context(1200, 768));
    assert_eq!(pass.group_indices, vec![0, 1]);
    assert!(pass.workgroups.x * 16 >= 1200 && pass.workgroups.y * 16 >= 768);
    assert_eq!(pass.workgroups.z, 1);
}
