use volym::demos::simple::importance::map_segments_to_importance;
use volym::demos::simple::importance::segment_voxel_counts;
use volym::demos::simple::importance::GpuImportances;
use volym::demos::simple::importance::SegmentInfo;
use volym::gpu::AddressMode;
use volym::gpu::BufferId;
use volym::gpu::BufferUsages;
use volym::gpu::Extent3d;
use volym::gpu::FilterMode;
use volym::gpu::ImageDataLayout;
use volym::gpu::SamplerId;
use volym::gpu::TextureDimension;
use volym::gpu::TextureFormat;
use volym::gpu::TextureId;
use volym::gpu::TextureUsages;
use volym::gpu::TextureViewId;
use volym::gpu_context::GpuContext;
use volym::gpu_context::PhysicalSize;
use volym::gpu_resources::camera::GpuCamera;
use volym::gpu_resources::debug_matrix::GpuDebugMatrix;
use volym::gpu_resources::parameters::GpuParameters;
use volym::gpu_resources::texture::GpuReadTexture2D;
use volym::gpu_resources::texture::GpuWriteTexture2D;
use volym::gpu_resources::transfer_function::GPUTransferFunction;
use volym::gpu_resources::transfer_function::Rgba8;
use volym::gpu_resources::volume::GpuVolume;
use volym::gpu_resources::FlipMode;
use volym::gpu_resources::ToGpuResources;
use volym::volume_data::VOLUME_LEN;

fn segment(label_value: u8, importance: u8) -> SegmentInfo {
    SegmentInfo {
        id: format!("Segment_{}", label_value),
        name: format!("segment {}", label_value),
        index: label_value,
        label_value,
        importance,
    }
}

fn cube() -> Extent3d {
    Extent3d { width: 256, height: 256, depth_or_array_layers: 256 }
}

#[test]
fn labels_become_importances() {
    let info = vec![segment(1, 10), segment(2, 20), segment(5, 50)];
    let mapped = map_segments_to_importance(vec![0, 1, 2, 3, 5, 2, 1, 255], info);
    assert_eq!(mapped, vec![0, 10, 20, 0, 50, 20, 10, 0]);
}

#[test]
fn the_first_segment_with_a_label_decides() {
    let info = vec![segment(7, 1), segment(7, 2), segment(0, 9)];
    let mapped = map_segments_to_importance(vec![7, 0, 7], info);
    assert_eq!(mapped, vec![1, 9, 1]);
}

#[test]
fn without_segments_everything_is_unimportant() {
    assert_eq!(map_segments_to_importance(vec![1, 2, 3], Vec::new()), vec![0, 0, 0]);
    assert_eq!(map_segments_to_importance(Vec::new(), vec![segment(1, 1)]), Vec::<u8>::new());
}

#[test]
fn voxels_are_counted_by_segment() {
    let counts = segment_voxel_counts(&[3, 0, 3, 255, 3, 0]);
    assert_eq!(counts.len(), 256);
    assert_eq!(counts[0], 2);
    assert_eq!(counts[3], 3);
    assert_eq!(counts[255], 1);
    assert_eq!(counts.iter().sum::<usize>(), 6);
    assert_eq!(counts[1], 0);
    let none = segment_voxel_counts(&[]);
    assert_eq!(none, vec![0usize; 256]);
}

#[test]
fn importance_upload_maps_then_fits() {
    let info = vec![segment(4, 200)];
    let upload = GpuImportances::upload(vec![4, 0, 4], info, FlipMode::Unchanged);
    assert_eq!(upload.data.len(), VOLUME_LEN);
    assert_eq!(&upload.data[..4], &[200, 0, 200, 0]);
    assert_eq!(upload.size, cube());
    assert_eq!(
        upload.layout,
        ImageDataLayout { offset: 0, bytes_per_row: Some(256), rows_per_image: Some(256) }
    );
    let desc = GpuImportances::texture_descriptor();
    assert_eq!(desc.label, "Importances Texture");
    assert_eq!(desc.size, cube());
    let sampler = GpuImportances::sampler_descriptor();
    assert_eq!(sampler.label, "Importances Sampler");
    assert_eq!(sampler.mag_filter, FilterMode::Nearest);
    assert_eq!(sampler.min_filter, FilterMode::Nearest);
    assert_eq!(sampler.address_mode_u, AddressMode::ClampToEdge);
    let importances = GpuImportances::init(TextureViewId(1), SamplerId(2));
    assert_eq!(importances.to_gpu_resources().len(), 2);
}

#[test]
fn volume_upload_covers_the_texture() {
    let upload = GpuVolume::upload(vec![5; 100], FlipMode::Unchanged);
    let desc = GpuVolume::texture_descriptor();
    assert_eq!(desc.label, "Volume Texture");
    assert_eq!(desc.size, cube());
    assert_eq!(desc.dimension, TextureDimension::D3);
    assert_eq!(desc.format, TextureFormat::R8Unorm);
    assert_eq!(desc.mip_level_count, 1);
    assert_eq!(desc.sample_count, 1);
    assert_eq!(
        desc.usage,
        TextureUsages {
            copy_src: false,
            copy_dst: true,
            texture_binding: true,
            storage_binding: false,
            render_attachment: false
        }
    );
    assert_eq!(upload.size, desc.size);
    assert_eq!(upload.data.len(), 256 * 256 * 256 * desc.format.bytes_per_texel() as usize);
    assert_eq!(
        upload.layout,
        ImageDataLayout { offset: 0, bytes_per_row: Some(256), rows_per_image: Some(256) }
    );
    assert!(upload.data[..100].iter().all(|b| *b == 5));
    assert!(upload.data[100..].iter().all(|b| *b == 0));
    let sampler = GpuVolume::sampler_descriptor();
    assert_eq!(sampler.label, "Volume Sampler");
    assert_eq!(sampler.mag_filter, FilterMode::Nearest);
}

#[test]
fn volume_upload_can_flip() {
    let upload = GpuVolume::upload(vec![1, 2, 3], FlipMode::Y);
    assert_eq!(upload.data.len(), VOLUME_LEN);
    let last_row = 255 * 256;
    assert_eq!(&upload.data[last_row..last_row + 4], &[1, 2, 3, 0]);
    assert_eq!(&upload.data[..3], &[0, 0, 0]);
}

#[test]
fn transfer_function_bakes_one_texel_per_level() {
    let texels = vec![
        Rgba8 { r: 0, g: 255, b: 0, a: 0 },
        Rgba8 { r: 1, g: 2, b: 3, a: 4 },
        Rgba8 { r: 255, g: 0, b: 0, a: 255 },
    ];
    let upload = GPUTransferFunction::upload(&texels);
    assert_eq!(upload.data, vec![0, 255, 0, 0, 1, 2, 3, 4, 255, 0, 0, 255]);
    assert_eq!(upload.size, Extent3d { width: 3, height: 1, depth_or_array_layers: 1 });
    assert_eq!(
        upload.layout,
        ImageDataLayout { offset: 0, bytes_per_row: Some(12), rows_per_image: Some(1) }
    );
    let empty = GPUTransferFunction::upload(&[]);
    assert!(empty.data.is_empty());
    assert_eq!(empty.size.width, 0);
}

#[test]
fn transfer_function_texture_has_a_texel_for_every_density() {
    let desc = GPUTransferFunction::texture_descriptor(255);
    assert_eq!(desc.label, "Transfer Function 1D Texture");
    assert_eq!(desc.size, Extent3d { width: 256, height: 1, depth_or_array_layers: 1 });
    assert_eq!(desc.dimension, TextureDimension::D1);
    assert_eq!(desc.format, TextureFormat::Rgba8Unorm);
    assert_eq!(TextureFormat::Rgba8Unorm.bytes_per_texel(), 4);
    assert_eq!(TextureFormat::R8Unorm.bytes_per_texel(), 1);
    let texels = vec![Rgba8 { r: 9, g: 9, b: 9, a: 9 }; 256];
    let upload = GPUTransferFunction::upload(&texels);
    assert_eq!(upload.size, desc.size);
    assert_eq!(upload.data.len(), 1024);
    assert_eq!(upload.layout.bytes_per_row, Some(1024));
    assert_eq!(GPUTransferFunction::texture_descriptor(0).size.width, 1);
    let sampler = GPUTransferFunction::sampler_descriptor();
    assert_eq!(sampler.label, "Transfer Function Sampler");
    assert_eq!(sampler.mag_filter, FilterMode::Linear);
    assert_eq!(sampler.min_filter, FilterMode::Linear);
    assert_eq!(sampler.mipmap_filter, FilterMode::Linear);
    assert_eq!(sampler.address_mode_u, AddressMode::ClampToEdge);
    assert_eq!(sampler.address_mode_v, AddressMode::ClampToEdge);
    assert_eq!(sampler.address_mode_w, AddressMode::ClampToEdge);
}

#[test]
fn uniform_buffers_take_the_serialised_values() {
    let desc = GpuCamera::buffer_descriptor(vec![1, 2, 3]);
    assert_eq!(desc.label, "Camera Buffer");
    assert_eq!(desc.contents, vec![1, 2, 3]);
    assert_eq!(desc.usage, BufferUsages { uniform: true, copy_dst: true });
    let write = GpuCamera::new(BufferId(4)).update(vec![7, 7]);
    assert_eq!(write.buffer, BufferId(4));
    assert_eq!(write.offset, 0);
    assert_eq!(write.data, vec![7, 7]);
    let desc = GpuParameters::buffer_descriptor(vec![8; 32]);
    assert_eq!(desc.label, "Parameters Buffer");
    assert_eq!(desc.contents.len(), 32);
    assert_eq!(desc.usage, BufferUsages { uniform: true, copy_dst: true });
    let write = GpuParameters::new(BufferId(6)).update(vec![0; 32]);
    assert_eq!(write.buffer, BufferId(6));
    assert_eq!(write.offset, 0);
    assert_eq!(write.data.len(), 32);
}

#[test]
fn surface_sized_textures_follow_the_surface() {
    let mut ctx = GpuContext::new(PhysicalSize { width: 1200, height: 768 }, TextureFormat::Rgba8Unorm);
    let surface = Extent3d { width: 1200, height: 768, depth_or_array_layers: 1 };
    let debug = GpuDebugMatrix::texture_descriptor(&ctx);
    assert_eq!(debug.label, "Debug Matrix Texture");
    assert_eq!(debug.size, surface);
    assert_eq!(debug.format, TextureFormat::Rgba8Unorm);
    assert_eq!(debug.dimension, TextureDimension::D2);
    assert!(debug.usage.storage_binding && debug.usage.texture_binding && debug.usage.copy_dst);
    let write = GpuWriteTexture2D::texture_descriptor(&ctx);
    assert_eq!(write.label, "Render Input Texture");
    assert_eq!(write.size, surface);
    assert!(write.usage.storage_binding && write.usage.texture_binding);
    assert!(!write.usage.copy_dst);
    assert_eq!(GpuReadTexture2D::texture_descriptor(&ctx), write);
    assert!(ctx.resize(PhysicalSize { width: 300, height: 200 }));
    let resized = Extent3d { width: 300, height: 200, depth_or_array_layers: 1 };
    assert_eq!(GpuDebugMatrix::texture_descriptor(&ctx).size, resized);
    assert_eq!(GpuWriteTexture2D::texture_descriptor(&ctx).size, resized);
}

#[test]
fn read_and_write_sides_share_the_texture() {
    let write = GpuWriteTexture2D::new(TextureId(3), TextureViewId(4));
    assert_eq!(write.texture_id(), TextureId(3));
    assert_eq!(write.view_id(), TextureViewId(4));
    let read = write.into_write_texture_2d(TextureViewId(5), SamplerId(6));
    assert_eq!(read.texture, TextureId(3));
    assert_eq!(read.texture_view, TextureViewId(5));
    assert_eq!(read.sampler, SamplerId(6));
    let back = GpuWriteTexture2D::from_write_texture_2d(read, TextureViewId(7));
    assert_eq!(back.texture_id(), TextureId(3));
    assert_eq!(back.view_id(), TextureViewId(7));
    let read_again = GpuReadTexture2D::from_write_texture_2d(back, TextureViewId(8), SamplerId(9));
    assert_eq!(read_again.texture, TextureId(3));
    assert_eq!(read_again.texture_view, TextureViewId(8));
    let write_again = read_again.into_write_texture_2d(TextureViewId(10));
    assert_eq!(write_again.texture_id(), TextureId(3));
    assert_eq!(write_again.view_id(), TextureViewId(10));
    let sampler = GpuReadTexture2D::sampler_descriptor();
    assert_eq!(sampler.label, "Sampler");
    assert_eq!(sampler.mag_filter, FilterMode::Linear);
}

#[test]
fn screenshot_copy_is_tightly_packed() {
    let copy = volym::screenshot::screenshot_copy(1200, 768);
    assert_eq!(copy.buffer_size, 1200 * 768 * 4);
    assert_eq!(
        copy.layout,
        ImageDataLayout { offset: 0, bytes_per_row: Some(4800), rows_per_image: Some(768) }
    );
    assert_eq!(copy.extent, Extent3d { width: 1200, height: 768, depth_or_array_layers: 1 });
    let empty = volym::screenshot::screenshot_copy(0, 0);
    assert_eq!(empty.buffer_size, 0);
    assert_eq!(empty.layout.bytes_per_row, Some(0));
    let largest = volym::screenshot::screenshot_copy(32768, 32767);
    assert_eq!(largest.buffer_size, 4_294_836_224);
}
