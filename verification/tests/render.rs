use terrain_renderer::gpu::{
    Limits, PowerPreference, PresentMode, RequestAdapterOptions, SwapChainDescriptor, SwapChainError,
    TextureFormat, TextureUsage,
};
use terrain_renderer::pipeline::{
    adapter_request, bind_group_layout, buffer_plan, clear_color, device_request, render_pass,
    render_pipeline, sampler_descriptor, shader_entry_point, texture_descriptor, texture_upload,
    buffer_copy, AddressMode, BindGroupLayoutEntry, BindingType, Blend, BufferCopy, BufferUsage,
    CompareFunction, CullMode, DeviceRequest,
    FilterMode, FrontFace, IndexFormat, InputStepMode, LoadOp, PrimitiveTopology, ShaderStage,
    TextureDimension, VertexFormat,
};
use terrain_renderer::utils::{create_indices, index_bytes};
use terrain_renderer::render_context::{
    Command, RenderContext, CAMERA_BYTES, INITIAL_AMPLITUDE, INITIAL_FREQUENCY, TEXTURE_SIZE,
};

const DRAW: Command = Command::Draw { index_count: 23814 };

fn copies(amplitude: f64, frequency: f32) -> [Command; 2] {
    [
        Command::CopyVertices { amplitude: amplitude.to_bits(), frequency: frequency.to_bits(), len: 98304 },
        Command::CopyIndices { amplitude: amplitude.to_bits(), frequency: frequency.to_bits(), len: 95256 },
    ]
}

#[test]
fn new_renderer_has_the_initial_parameters() {
    let ctx = RenderContext::create(800, 600).unwrap();
    assert_eq!(f64::from_bits(ctx.amplitude()), 10.0);
    assert_eq!(f32::from_bits(ctx.frequency()), 6.0);
    assert_eq!(ctx.amplitude(), INITIAL_AMPLITUDE);
    assert_eq!(ctx.frequency(), INITIAL_FREQUENCY);
    assert!(!ctx.is_dirty());
    assert_eq!(ctx.size(), (800, 600));
    assert_eq!(ctx.pending_len(), 0);
    assert_eq!(ctx.index_count(), 23814);
    assert_eq!(ctx.vertex_buf_len(), 64 * 64 * 24);
    assert_eq!(
        ctx.swap_chain_descriptor(),
        SwapChainDescriptor {
            usage: TextureUsage::OutputAttachment,
            format: TextureFormat::Bgra8UnormSrgb,
            width: 800,
            height: 600,
            present_mode: PresentMode::Mailbox,
        }
    );
}

#[test]
fn setup_uploads_the_placeholder_texture() {
    assert_eq!(TEXTURE_SIZE, 256);
    assert_eq!(RenderContext::setup_commands(), vec![Command::CopyTexels { size: 256, bytes_per_row: 1024 }]);
}

#[test]
fn first_frame_only_draws() {
    let mut ctx = RenderContext::create(800, 600).unwrap();
    assert_eq!(ctx.render(), vec![DRAW]);
    assert_eq!(ctx.render(), vec![DRAW]);
}

#[test]
fn setters_do_not_ask_for_a_rebuild() {
    let mut ctx = RenderContext::create(800, 600).unwrap();
    ctx.set_amplitude(3.0f64.to_bits());
    ctx.set_frequency(2.0f32.to_bits());
    assert_eq!(f64::from_bits(ctx.amplitude()), 3.0);
    assert_eq!(f32::from_bits(ctx.frequency()), 2.0);
    assert!(!ctx.is_dirty());
    assert_eq!(ctx.render(), vec![DRAW]);
}

#[test]
fn many_changes_give_one_rebuild_with_the_latest_parameters() {
    let mut ctx = RenderContext::create(800, 600).unwrap();
    ctx.set_amplitude(1.0f64.to_bits());
    ctx.set_dirty();
    ctx.set_frequency(9.0f32.to_bits());
    ctx.set_dirty();
    ctx.set_amplitude(4.5f64.to_bits());
    ctx.set_dirty();
    ctx.set_frequency(0.5f32.to_bits());
    assert!(ctx.is_dirty());
    assert_eq!(ctx.pending_len(), 0);
    let [vertices, indices] = copies(4.5, 0.5);
    assert_eq!(ctx.render(), vec![DRAW]);
    assert!(!ctx.is_dirty());
    assert_eq!(ctx.pending_len(), 2);
    assert_eq!(ctx.render(), vec![vertices, indices, DRAW]);
    assert_eq!(ctx.pending_len(), 0);
    assert_eq!(ctx.render(), vec![DRAW]);
}

#[test]
fn resize_stages_the_camera_for_the_next_frame() {
    let mut ctx = RenderContext::create(800, 600).unwrap();
    ctx.resize(1024, 768);
    assert_eq!(ctx.size(), (1024, 768));
    assert_eq!(ctx.pending_len(), 1);
    assert_eq!(CAMERA_BYTES, 64);
    assert_eq!(ctx.render(), vec![Command::CopyCamera { width: 1024, height: 768, len: 64 }, DRAW]);
    assert_eq!(ctx.pending_len(), 0);
    assert_eq!(ctx.swap_chain_descriptor().format, TextureFormat::Bgra8UnormSrgb);
}

#[test]
fn second_resize_is_the_last_camera_copy() {
    let mut ctx = RenderContext::create(800, 600).unwrap();
    ctx.resize(1024, 768);
    ctx.resize(500, 1000);
    let submitted = ctx.render();
    assert_eq!(
        submitted,
        vec![
            Command::CopyCamera { width: 1024, height: 768, len: 64 },
            Command::CopyCamera { width: 500, height: 1000, len: 64 },
            DRAW,
        ]
    );
    let last_camera = submitted.iter().rev().find(|c| matches!(c, Command::CopyCamera { .. }));
    assert_eq!(last_camera, Some(&Command::CopyCamera { width: 500, height: 1000, len: 64 }));
    assert_eq!(ctx.size(), (500, 1000));
}

#[test]
fn staged_copies_come_before_the_draw() {
    let mut ctx = RenderContext::create(800, 600).unwrap();
    ctx.resize(640, 480);
    ctx.set_dirty();
    let [vertices, indices] = copies(10.0, 6.0);
    let submitted = ctx.render();
    assert_eq!(submitted, vec![Command::CopyCamera { width: 640, height: 480, len: 64 }, DRAW]);
    assert_eq!(submitted.last(), Some(&DRAW));
    assert_eq!(ctx.pending_len(), 2);
    ctx.resize(320, 240);
    assert_eq!(
        ctx.render(),
        vec![vertices, indices, Command::CopyCamera { width: 320, height: 240, len: 64 }, DRAW]
    );
    assert_eq!(ctx.pending_len(), 0);
    assert_eq!(ctx.render(), vec![DRAW]);
}

#[test]
fn buffers_are_sized_for_the_mesh_and_the_camera() {
    let plan = buffer_plan();
    assert_eq!(plan.vertex.usage, BufferUsage::VertexCopyDst);
    assert_eq!(plan.vertex.len, 64 * 64 * 24);
    assert_eq!(plan.index.usage, BufferUsage::IndexCopyDst);
    assert_eq!(plan.index.len, 23814 * 4);
    assert_eq!(plan.uniform.usage, BufferUsage::UniformCopyDst);
    assert_eq!(plan.uniform.len, 64);
}

#[test]
fn texture_is_a_square_of_rgba() {
    let texture = texture_descriptor();
    assert_eq!((texture.width, texture.height, texture.depth), (256, 256, 1));
    assert_eq!(texture.array_layer_count, 1);
    assert_eq!(texture.mip_level_count, 1);
    assert_eq!(texture.sample_count, 1);
    assert_eq!(texture.dimension, TextureDimension::D2);
    assert_eq!(texture.format, TextureFormat::Rgba8UnormSrgb);
    assert_eq!(texture.usage, TextureUsage::SampledCopyDst);
}

#[test]
fn sampler_clamps_and_filters() {
    let sampler = sampler_descriptor();
    assert_eq!(sampler.address_mode_u, AddressMode::ClampToEdge);
    assert_eq!(sampler.address_mode_v, AddressMode::ClampToEdge);
    assert_eq!(sampler.address_mode_w, AddressMode::ClampToEdge);
    assert_eq!(sampler.mag_filter, FilterMode::Nearest);
    assert_eq!(sampler.min_filter, FilterMode::Linear);
    assert_eq!(sampler.mipmap_filter, FilterMode::Nearest);
    assert_eq!((sampler.lod_min_clamp, sampler.lod_max_clamp), (-100, 100));
    assert_eq!(sampler.compare, CompareFunction::Undefined);
}

#[test]
fn bind_group_has_three_slots() {
    assert_eq!(
        bind_group_layout(),
        vec![
            BindGroupLayoutEntry {
                binding: 0,
                visibility: ShaderStage::Vertex,
                ty: BindingType::UniformBuffer { len: 64 },
            },
            BindGroupLayoutEntry { binding: 1, visibility: ShaderStage::Fragment, ty: BindingType::SampledTexture },
            BindGroupLayoutEntry { binding: 2, visibility: ShaderStage::Fragment, ty: BindingType::Sampler },
        ]
    );
}

#[test]
fn pipeline_state_is_fixed() {
    let pipeline = render_pipeline();
    assert_eq!(pipeline.primitive_topology, PrimitiveTopology::TriangleList);
    assert_eq!(pipeline.front_face, FrontFace::Ccw);
    assert_eq!(pipeline.cull_mode, CullMode::Back);
    assert_eq!(pipeline.color_format, TextureFormat::Bgra8UnormSrgb);
    assert_eq!(pipeline.color_blend, Blend::Replace);
    assert_eq!(pipeline.alpha_blend, Blend::Replace);
    assert!(pipeline.write_all);
    assert!(!pipeline.depth_stencil);
    assert_eq!(pipeline.index_format, IndexFormat::Uint32);
    assert_eq!(pipeline.stride, 24);
    assert_eq!(pipeline.step_mode, InputStepMode::Vertex);
    assert_eq!(pipeline.position.format, VertexFormat::Float4);
    assert_eq!((pipeline.position.offset, pipeline.position.shader_location), (0, 0));
    assert_eq!(pipeline.tex_coord.format, VertexFormat::Float2);
    assert_eq!((pipeline.tex_coord.offset, pipeline.tex_coord.shader_location), (16, 1));
    assert_eq!(pipeline.sample_count, 1);
    assert!(!pipeline.alpha_to_coverage_enabled);
}

#[test]
fn frames_are_cleared_to_dark_blue() {
    let color = clear_color();
    assert_eq!(f64::from_bits(color.r), 0.1);
    assert_eq!(f64::from_bits(color.g), 0.2);
    assert_eq!(f64::from_bits(color.b), 0.3);
    assert_eq!(f64::from_bits(color.a), 1.0);
}

#[test]
fn rebuild_copies_the_whole_index_data() {
    let mut ctx = RenderContext::create(800, 600).unwrap();
    ctx.set_dirty();
    assert_eq!(ctx.render(), vec![DRAW]);
    let submitted = ctx.render();
    let index_data = index_bytes(&create_indices());
    assert_eq!(index_data.len(), 95256);
    assert_eq!(
        submitted[1],
        Command::CopyIndices {
            amplitude: INITIAL_AMPLITUDE,
            frequency: INITIAL_FREQUENCY,
            len: index_data.len() as u64,
        }
    );
    assert_eq!(buffer_plan().index.len, index_data.len() as u64);
    assert_eq!(index_data.len() % 4, 0);
}

#[test]
fn rebuild_stages_two_copies_and_keeps_the_flag() {
    let mut ctx = RenderContext::create(800, 600).unwrap();
    ctx.set_amplitude(2.0f64.to_bits());
    ctx.regenerate_mesh();
    assert_eq!(ctx.pending_len(), 2);
    assert!(!ctx.is_dirty());
    assert_eq!(ctx.vertex_buf_len(), 98304);
    assert_eq!(ctx.index_count(), 23814);
    let [vertices, indices] = copies(2.0, 6.0);
    assert_eq!(ctx.render(), vec![vertices, indices, DRAW]);
}

#[test]
fn rebuilds_with_equal_parameters_stage_equal_copies() {
    let mut first = RenderContext::create(800, 600).unwrap();
    let mut second = RenderContext::create(320, 200).unwrap();
    second.resize(100, 100);
    second.render();
    first.set_frequency(1.5f32.to_bits());
    second.set_frequency(1.5f32.to_bits());
    first.regenerate_mesh();
    second.regenerate_mesh();
    let a = first.render();
    let b = second.render();
    assert_eq!(a, b);
    first.regenerate_mesh();
    assert_eq!(first.render(), a);
}

#[test]
fn renderer_asks_for_a_default_adapter_and_device() {
    assert_eq!(
        adapter_request(),
        RequestAdapterOptions { power_preference: PowerPreference::Default, compatible_surface: true }
    );
    assert_eq!(device_request(), DeviceRequest { anisotropic_filtering: false, limits: Limits::Default });
}

#[test]
fn shaders_enter_at_main() {
    assert_eq!(shader_entry_point(), "main");
}

#[test]
fn frame_pass_clears_stores_and_draws_one_instance() {
    let pass = render_pass();
    assert_eq!(pass.load, LoadOp::Clear);
    assert_eq!(pass.clear_color, clear_color());
    assert!(pass.store);
    assert!(!pass.depth_stencil);
    assert_eq!((pass.bind_group_slot, pass.vertex_buffer_slot), (0, 0));
    assert_eq!((pass.index_buffer_offset, pass.vertex_buffer_offset), (0, 0));
    assert_eq!((pass.first_index, pass.base_vertex), (0, 0));
    assert_eq!((pass.first_instance, pass.instance_count), (0, 1));
}

#[test]
fn texture_upload_copies_the_whole_image() {
    let copy = texture_upload();
    assert_eq!(copy.buffer_offset, 0);
    assert_eq!(copy.bytes_per_row, 1024);
    assert_eq!(copy.rows_per_image, 0);
    assert_eq!((copy.mip_level, copy.array_layer), (0, 0));
    assert_eq!((copy.origin_x, copy.origin_y, copy.origin_z), (0, 0, 0));
    assert_eq!((copy.width, copy.height, copy.depth), (256, 256, 1));
    assert_eq!(
        RenderContext::setup_commands(),
        vec![Command::CopyTexels { size: copy.width, bytes_per_row: copy.bytes_per_row }]
    );
}

#[test]
fn rebuild_is_drawn_one_frame_late() {
    let mut ctx = RenderContext::create(800, 600).unwrap();
    ctx.set_amplitude(7.0f64.to_bits());
    ctx.set_dirty();
    // the frame that finds the flag draws the mesh as it was
    let frame_n = ctx.render();
    assert_eq!(frame_n, vec![DRAW]);
    assert!(frame_n
        .iter()
        .all(|c| !matches!(c, Command::CopyVertices { .. } | Command::CopyIndices { .. })));
    // a change after that frame does not reach the rebuild already staged
    ctx.set_amplitude(1.0f64.to_bits());
    let [vertices, indices] = copies(7.0, 6.0);
    assert_eq!(ctx.render(), vec![vertices, indices, DRAW]);
    assert_eq!(ctx.render(), vec![DRAW]);
}

#[test]
fn failed_acquisition_leaves_the_renderer_alone() {
    let mut ctx = RenderContext::create(800, 600).unwrap();
    ctx.resize(640, 480);
    ctx.set_dirty();
    for failure in [
        SwapChainError::Timeout,
        SwapChainError::Outdated,
        SwapChainError::Lost,
        SwapChainError::OutOfMemory,
    ] {
        assert_eq!(ctx.render_acquired(Err(failure)), Err(failure));
        assert!(ctx.is_dirty());
        assert_eq!(ctx.pending_len(), 1);
        assert_eq!(ctx.size(), (640, 480));
    }
    assert_eq!(
        ctx.render_acquired(Ok(())),
        Ok(vec![Command::CopyCamera { width: 640, height: 480, len: 64 }, DRAW])
    );
    assert!(!ctx.is_dirty());
    assert_eq!(ctx.pending_len(), 2);
}

#[test]
fn acquired_frame_renders_as_render_does() {
    let mut a = RenderContext::create(800, 600).unwrap();
    let mut b = RenderContext::create(800, 600).unwrap();
    a.resize(10, 20);
    b.resize(10, 20);
    assert_eq!(a.render_acquired(Ok(())), Ok(b.render()));
    assert_eq!(a.pending_len(), b.pending_len());
}

#[test]
fn acquisition_failure_has_its_message() {
    assert_eq!(
        RenderContext::acquisition_failure_message(),
        "Timeout when acquiring next swap chain texture."
    );
}

#[test]
fn staged_copies_start_at_the_first_byte() {
    assert_eq!(buffer_copy(), BufferCopy { source_offset: 0, destination_offset: 0 });
}
