//! The renderer's fixed GPU state, as plain descriptions: the buffers and
//! the texture it allocates, its sampler, its three resource bindings and
//! its one render pipeline. The caller turns each into the backend's own
//! descriptor.

use vstd::prelude::*;
use crate::gpu::{Limits, PowerPreference, RequestAdapterOptions, TextureFormat, TextureUsage};
use crate::render_context::{CAMERA_BYTES, RenderState, TEXTURE_SIZE};
use crate::utils::{
    GRID_SIZE, VERTEX_SIZE, index_buffer_bytes, index_count, mesh_indices, mesh_vertices, texels,
    vertex_buffer_bytes, vertex_count,
};

verus! {

/// What the renderer asks of the backend when it requests its device.
#[derive(Clone, Copy, Debug, PartialEq, Eq, Structural)]
pub struct DeviceRequest {
    pub anisotropic_filtering: bool,
    pub limits: Limits,
}

/// What a buffer is used for.
#[derive(Clone, Copy, Debug, PartialEq, Eq, Structural)]
pub enum BufferUsage {
    /// Vertex data that later copies may overwrite.
    VertexCopyDst,
    /// Index data that later copies may overwrite.
    IndexCopyDst,
    /// Uniform data that later copies may overwrite.
    UniformCopyDst,
    /// Source of one copy.
    CopySrc,
}

/// A buffer to allocate: its use and its length in bytes.
#[derive(Clone, Copy, Debug, PartialEq, Eq, Structural)]
pub struct BufferDescriptor {
    pub usage: BufferUsage,
    pub len: u64,
}

/// The buffers that live as long as the renderer.
#[derive(Clone, Copy, Debug, PartialEq, Eq, Structural)]
pub struct BufferPlan {
    pub vertex: BufferDescriptor,
    pub index: BufferDescriptor,
    pub uniform: BufferDescriptor,
}

#[derive(Clone, Copy, Debug, PartialEq, Eq, Structural)]
pub enum TextureDimension {
    D1,
    D2,
    D3,
}

/// The texture to allocate.
#[derive(Clone, Copy, Debug, PartialEq, Eq, Structural)]
pub struct TextureDescriptor {
    pub width: u32,
    pub height: u32,
    pub depth: u32,
    pub array_layer_count: u32,
    pub mip_level_count: u32,
    pub sample_count: u32,
    pub dimension: TextureDimension,
    pub format: TextureFormat,
    pub usage: TextureUsage,
}

#[derive(Clone, Copy, Debug, PartialEq, Eq, Structural)]
pub enum AddressMode {
    ClampToEdge,
    Repeat,
    MirrorRepeat,
}

#[derive(Clone, Copy, Debug, PartialEq, Eq, Structural)]
pub enum FilterMode {
    Nearest,
    Linear,
}

/// How a sampler compares what it reads against a reference value.
#[derive(Clone, Copy, Debug, PartialEq, Eq, Structural)]
pub enum CompareFunction {
    /// It does not compare.
    Undefined,
    Never,
    Less,
    Equal,
    LessEqual,
    Greater,
    NotEqual,
    GreaterEqual,
    Always,
}

/// The sampler to create. The level-of-detail clamps are whole numbers.
#[derive(Clone, Copy, Debug, PartialEq, Eq, Structural)]
pub struct SamplerDescriptor {
    pub address_mode_u: AddressMode,
    pub address_mode_v: AddressMode,
    pub address_mode_w: AddressMode,
    pub mag_filter: FilterMode,
    pub min_filter: FilterMode,
    pub mipmap_filter: FilterMode,
    pub lod_min_clamp: i32,
    pub lod_max_clamp: i32,
    pub compare: CompareFunction,
}

#[derive(Clone, Copy, Debug, PartialEq, Eq, Structural)]
pub enum ShaderStage {
    Vertex,
    Fragment,
}

#[derive(Clone, Copy, Debug, PartialEq, Eq, Structural)]
pub enum BindingType {
    /// A uniform buffer at a fixed offset, bound over `len` bytes.
    UniformBuffer { len: u64 },
    /// A two-dimensional texture of floats, one sample per texel.
    SampledTexture,
    /// A sampler that does not compare.
    Sampler,
}

/// One slot of the bind group: its number, the stage that sees it and
/// what is bound there.
#[derive(Clone, Copy, Debug, PartialEq, Eq, Structural)]
pub struct BindGroupLayoutEntry {
    pub binding: u32,
    pub visibility: ShaderStage,
    pub ty: BindingType,
}

#[derive(Clone, Copy, Debug, PartialEq, Eq, Structural)]
pub enum VertexFormat {
    /// Two single-precision floats.
    Float2,
    /// Four single-precision floats.
    Float4,
}

/// One input of the vertex stage: where in a vertex it starts and at
/// which shader location it arrives.
#[derive(Clone, Copy, Debug, PartialEq, Eq, Structural)]
pub struct VertexAttributeDescriptor {
    pub format: VertexFormat,
    pub offset: u64,
    pub shader_location: u32,
}

/// Whether a vertex buffer advances with each vertex or each instance.
#[derive(Clone, Copy, Debug, PartialEq, Eq, Structural)]
pub enum InputStepMode {
    Vertex,
    Instance,
}

#[derive(Clone, Copy, Debug, PartialEq, Eq, Structural)]
pub enum PrimitiveTopology {
    PointList,
    LineList,
    LineStrip,
    TriangleList,
    TriangleStrip,
}

#[derive(Clone, Copy, Debug, PartialEq, Eq, Structural)]
pub enum FrontFace {
    Ccw,
    Cw,
}

#[derive(Clone, Copy, Debug, PartialEq, Eq, Structural)]
pub enum CullMode {
    Neither,
    Front,
    Back,
}

#[derive(Clone, Copy, Debug, PartialEq, Eq, Structural)]
pub enum IndexFormat {
    Uint16,
    Uint32,
}

/// How a fragment's colour meets the one already in the target.
#[derive(Clone, Copy, Debug, PartialEq, Eq, Structural)]
pub enum Blend {
    /// The fragment's value replaces the target's.
    Replace,
}

/// The state of the one render pipeline. Both shader stages enter at
/// the name that `shader_entry_point` gives; there is no depth or stencil
/// test.
#[derive(Clone, Copy, Debug, PartialEq, Eq, Structural)]
pub struct RenderPipelineDescriptor {
    pub primitive_topology: PrimitiveTopology,
    pub front_face: FrontFace,
    pub cull_mode: CullMode,
    pub color_format: TextureFormat,
    pub color_blend: Blend,
    pub alpha_blend: Blend,
    /// Whether all four colour channels are written.
    pub write_all: bool,
    pub depth_stencil: bool,
    pub index_format: IndexFormat,
    /// Bytes from one vertex to the next.
    pub stride: u64,
    pub step_mode: InputStepMode,
    pub position: VertexAttributeDescriptor,
    pub tex_coord: VertexAttributeDescriptor,
    pub sample_count: u32,
    pub alpha_to_coverage_enabled: bool,
}

/// The colour a frame is cleared to, each channel as the bits of a
/// double-precision float.
#[derive(Clone, Copy, Debug, PartialEq, Eq, Structural)]
pub struct ClearColor {
    pub r: u64,
    pub g: u64,
    pub b: u64,
    pub a: u64,
}

/// What happens to the frame's image when a pass begins.
#[derive(Clone, Copy, Debug, PartialEq, Eq, Structural)]
pub enum LoadOp {
    /// It is filled with the clear colour.
    Clear,
    /// It is kept.
    Load,
}

/// The one render pass of a frame and its one draw.
#[derive(Clone, Copy, Debug, PartialEq, Eq, Structural)]
pub struct RenderPassDescriptor {
    pub load: LoadOp,
    pub clear_color: ClearColor,
    /// Whether what is drawn is written to the frame's image.
    pub store: bool,
    pub depth_stencil: bool,
    /// Slot at which the bind group is bound.
    pub bind_group_slot: u32,
    /// Slot at which the vertex buffer is bound.
    pub vertex_buffer_slot: u32,
    /// Byte in the index buffer at which the indices start.
    pub index_buffer_offset: u64,
    /// Byte in the vertex buffer at which the vertices start.
    pub vertex_buffer_offset: u64,
    pub first_index: u32,
    pub base_vertex: i32,
    pub first_instance: u32,
    pub instance_count: u32,
}

/// Where a copy from one buffer to another starts in each of them.
#[derive(Clone, Copy, Debug, PartialEq, Eq, Structural)]
pub struct BufferCopy {
    pub source_offset: u64,
    pub destination_offset: u64,
}

/// The copy that fills a texture from a buffer of texels.
#[derive(Clone, Copy, Debug, PartialEq, Eq, Structural)]
pub struct TextureCopy {
    /// Byte in the buffer at which the texels start.
    pub buffer_offset: u64,
    pub bytes_per_row: u32,
    /// Rows between two images in the buffer; zero for a single image.
    pub rows_per_image: u32,
    pub mip_level: u32,
    pub array_layer: u32,
    pub origin_x: u32,
    pub origin_y: u32,
    pub origin_z: u32,
    pub width: u32,
    pub height: u32,
    pub depth: u32,
}

/// The renderer's adapter request: no preference for power or speed, an
/// adapter that can present to the window's surface.
pub open spec fn renderer_adapter() -> RequestAdapterOptions {
    RequestAdapterOptions { power_preference: PowerPreference::Default, compatible_surface: true }
}

/// The renderer's device request: no anisotropic filtering, default limits.
pub open spec fn renderer_device() -> DeviceRequest {
    DeviceRequest { anisotropic_filtering: false, limits: Limits::Default }
}

/// The colour every frame is cleared to, (0.1, 0.2, 0.3, 1.0), as bits.
pub open spec fn frame_color() -> ClearColor {
    ClearColor {
        r: 0x3FB9_9999_9999_999A,
        g: 0x3FC9_9999_9999_999A,
        b: 0x3FD3_3333_3333_3333,
        a: 0x3FF0_0000_0000_0000,
    }
}

/// The frame's pass: cleared, stored, no depth or stencil; bind group and
/// vertex buffer at slot 0, buffers from their first byte; all indices
/// from the first, base vertex 0, one instance.
pub open spec fn terrain_pass() -> RenderPassDescriptor {
    RenderPassDescriptor {
        load: LoadOp::Clear,
        clear_color: frame_color(),
        store: true,
        depth_stencil: false,
        bind_group_slot: 0,
        vertex_buffer_slot: 0,
        index_buffer_offset: 0,
        vertex_buffer_offset: 0,
        first_index: 0,
        base_vertex: 0,
        first_instance: 0,
        instance_count: 1,
    }
}

/// The upload of the placeholder texture: the whole image from the start
/// of the buffer, four bytes per texel of a row, into the first mip level
/// of the first layer at the origin.
pub open spec fn placeholder_upload() -> TextureCopy {
    TextureCopy {
        buffer_offset: 0,
        bytes_per_row: (4 * TEXTURE_SIZE) as u32,
        rows_per_image: 0,
        mip_level: 0,
        array_layer: 0,
        origin_x: 0,
        origin_y: 0,
        origin_z: 0,
        width: TEXTURE_SIZE,
        height: TEXTURE_SIZE,
        depth: 1,
    }
}

/// Bytes that a vertex input of the given format takes.
pub open spec fn format_bytes(format: VertexFormat) -> nat {
    match format {
        VertexFormat::Float2 => 8,
        VertexFormat::Float4 => 16,
    }
}

/// The buffers of the renderer: the mesh buffers sized for the one mesh
/// shape, the uniform buffer sized for the camera matrix.
pub open spec fn buffers() -> BufferPlan {
    BufferPlan {
        vertex: BufferDescriptor { usage: BufferUsage::VertexCopyDst, len: (vertex_count() * VERTEX_SIZE) as u64 },
        index: BufferDescriptor { usage: BufferUsage::IndexCopyDst, len: (index_count() * 4) as u64 },
        uniform: BufferDescriptor { usage: BufferUsage::UniformCopyDst, len: CAMERA_BYTES },
    }
}

/// The placeholder texture: square, two-dimensional, one layer, one mip
/// level, one sample.
pub open spec fn placeholder_texture() -> TextureDescriptor {
    TextureDescriptor {
        width: TEXTURE_SIZE,
        height: TEXTURE_SIZE,
        depth: 1,
        array_layer_count: 1,
        mip_level_count: 1,
        sample_count: 1,
        dimension: TextureDimension::D2,
        format: TextureFormat::Rgba8UnormSrgb,
        usage: TextureUsage::SampledCopyDst,
    }
}

/// The sampler: clamped on all axes, nearest when magnified, linear
/// when minified, nearest between mip levels.
pub open spec fn terrain_sampler() -> SamplerDescriptor {
    SamplerDescriptor {
        address_mode_u: AddressMode::ClampToEdge,
        address_mode_v: AddressMode::ClampToEdge,
        address_mode_w: AddressMode::ClampToEdge,
        mag_filter: FilterMode::Nearest,
        min_filter: FilterMode::Linear,
        mipmap_filter: FilterMode::Nearest,
        lod_min_clamp: -100i32,
        lod_max_clamp: 100i32,
        compare: CompareFunction::Undefined,
    }
}

/// The three slots of the bind group: the camera matrix for the vertex
/// stage, texture and sampler for the fragment stage.
pub open spec fn bindings() -> Seq<BindGroupLayoutEntry> {
    seq![
        BindGroupLayoutEntry {
            binding: 0,
            visibility: ShaderStage::Vertex,
            ty: BindingType::UniformBuffer { len: CAMERA_BYTES },
        },
        BindGroupLayoutEntry { binding: 1, visibility: ShaderStage::Fragment, ty: BindingType::SampledTexture },
        BindGroupLayoutEntry { binding: 2, visibility: ShaderStage::Fragment, ty: BindingType::Sampler },
    ]
}

/// The render pipeline: a list of triangles, counter-clockwise in front,
/// back faces culled, drawn opaquely into the swap chain's format.
pub open spec fn terrain_pipeline() -> RenderPipelineDescriptor {
    RenderPipelineDescriptor {
        primitive_topology: PrimitiveTopology::TriangleList,
        front_face: FrontFace::Ccw,
        cull_mode: CullMode::Back,
        color_format: TextureFormat::Bgra8UnormSrgb,
        color_blend: Blend::Replace,
        alpha_blend: Blend::Replace,
        write_all: true,
        depth_stencil: false,
        index_format: IndexFormat::Uint32,
        stride: VERTEX_SIZE as u64,
        step_mode: InputStepMode::Vertex,
        position: VertexAttributeDescriptor { format: VertexFormat::Float4, offset: 0, shader_location: 0 },
        tex_coord: VertexAttributeDescriptor { format: VertexFormat::Float2, offset: 16, shader_location: 1 },
        sample_count: 1,
        alpha_to_coverage_enabled: false,
    }
}

/// The buffers to allocate when the renderer is set up.
pub fn buffer_plan() -> (plan: BufferPlan)
    ensures
        plan == buffers(),
{
    let vertex_len: usize = GRID_SIZE * GRID_SIZE * VERTEX_SIZE;
    let index_len: usize = 6 * (GRID_SIZE - 1) * (GRID_SIZE - 1) * 4;
    BufferPlan {
        vertex: BufferDescriptor { usage: BufferUsage::VertexCopyDst, len: vertex_len as u64 },
        index: BufferDescriptor { usage: BufferUsage::IndexCopyDst, len: index_len as u64 },
        uniform: BufferDescriptor { usage: BufferUsage::UniformCopyDst, len: CAMERA_BYTES },
    }
}

/// The texture to allocate when the renderer is set up.
pub fn texture_descriptor() -> (descriptor: TextureDescriptor)
    ensures
        descriptor == placeholder_texture(),
{
    TextureDescriptor {
        width: TEXTURE_SIZE,
        height: TEXTURE_SIZE,
        depth: 1,
        array_layer_count: 1,
        mip_level_count: 1,
        sample_count: 1,
        dimension: TextureDimension::D2,
        format: TextureFormat::Rgba8UnormSrgb,
        usage: TextureUsage::SampledCopyDst,
    }
}

/// The sampler to create when the renderer is set up.
pub fn sampler_descriptor() -> (descriptor: SamplerDescriptor)
    ensures
        descriptor == terrain_sampler(),
{
    SamplerDescriptor {
        address_mode_u: AddressMode::ClampToEdge,
        address_mode_v: AddressMode::ClampToEdge,
        address_mode_w: AddressMode::ClampToEdge,
        mag_filter: FilterMode::Nearest,
        min_filter: FilterMode::Linear,
        mipmap_filter: FilterMode::Nearest,
        lod_min_clamp: -100i32,
        lod_max_clamp: 100i32,
        compare: CompareFunction::Undefined,
    }
}

/// The slots of the bind group, in order of their numbers.
pub fn bind_group_layout() -> (entries: Vec<BindGroupLayoutEntry>)
    ensures
        entries@ == bindings(),
{
    let mut entries: Vec<BindGroupLayoutEntry> = Vec::new();
    entries.push(
        BindGroupLayoutEntry {
            binding: 0,
            visibility: ShaderStage::Vertex,
            ty: BindingType::UniformBuffer { len: CAMERA_BYTES },
        },
    );
    entries.push(
        BindGroupLayoutEntry { binding: 1, visibility: ShaderStage::Fragment, ty: BindingType::SampledTexture },
    );
    entries.push(BindGroupLayoutEntry { binding: 2, visibility: ShaderStage::Fragment, ty: BindingType::Sampler });
    assert(entries@ =~= bindings());
    entries
}

/// The state of the render pipeline.
pub fn render_pipeline() -> (descriptor: RenderPipelineDescriptor)
    ensures
        descriptor == terrain_pipeline(),
{
    RenderPipelineDescriptor {
        primitive_topology: PrimitiveTopology::TriangleList,
        front_face: FrontFace::Ccw,
        cull_mode: CullMode::Back,
        color_format: TextureFormat::Bgra8UnormSrgb,
        color_blend: Blend::Replace,
        alpha_blend: Blend::Replace,
        write_all: true,
        depth_stencil: false,
        index_format: IndexFormat::Uint32,
        stride: VERTEX_SIZE as u64,
        step_mode: InputStepMode::Vertex,
        position: VertexAttributeDescriptor { format: VertexFormat::Float4, offset: 0, shader_location: 0 },
        tex_coord: VertexAttributeDescriptor { format: VertexFormat::Float2, offset: 4 * 4, shader_location: 1 },
        sample_count: 1,
        alpha_to_coverage_enabled: false,
    }
}

/// The colour every frame is cleared to.
pub fn clear_color() -> (color: ClearColor)
    ensures
        color == frame_color(),
{
    ClearColor {
        r: 0x3FB9_9999_9999_999A,
        g: 0x3FC9_9999_9999_999A,
        b: 0x3FD3_3333_3333_3333,
        a: 0x3FF0_0000_0000_0000,
    }
}

/// Where the staged copies of camera, vertices and indices start: at the
/// first byte of the buffer that holds the new data and at the first byte
/// of the buffer they overwrite.
pub fn buffer_copy() -> (copy: BufferCopy)
    ensures
        copy == (BufferCopy { source_offset: 0, destination_offset: 0 }),
{
    BufferCopy { source_offset: 0, destination_offset: 0 }
}

/// The renderer's adapter request.
pub fn adapter_request() -> (options: RequestAdapterOptions)
    ensures
        options == renderer_adapter(),
{
    RequestAdapterOptions { power_preference: PowerPreference::Default, compatible_surface: true }
}

/// The renderer's device request.
pub fn device_request() -> (request: DeviceRequest)
    ensures
        request == renderer_device(),
{
    DeviceRequest { anisotropic_filtering: false, limits: Limits::Default }
}

/// The name at which both shader stages are entered.
pub fn shader_entry_point() -> (name: &'static str)
    ensures
        name@ == "main"@,
{
    "main"
}

/// The frame's render pass and draw.
pub fn render_pass() -> (descriptor: RenderPassDescriptor)
    ensures
        descriptor == terrain_pass(),
{
    RenderPassDescriptor {
        load: LoadOp::Clear,
        clear_color: clear_color(),
        store: true,
        depth_stencil: false,
        bind_group_slot: 0,
        vertex_buffer_slot: 0,
        index_buffer_offset: 0,
        vertex_buffer_offset: 0,
        first_index: 0,
        base_vertex: 0,
        first_instance: 0,
        instance_count: 1,
    }
}

/// The copy that uploads the placeholder texture.
pub fn texture_upload() -> (copy: TextureCopy)
    ensures
        copy == placeholder_upload(),
{
    TextureCopy {
        buffer_offset: 0,
        bytes_per_row: 4 * TEXTURE_SIZE,
        rows_per_image: 0,
        mip_level: 0,
        array_layer: 0,
        origin_x: 0,
        origin_y: 0,
        origin_z: 0,
        width: TEXTURE_SIZE,
        height: TEXTURE_SIZE,
        depth: 1,
    }
}

/// The two vertex inputs tile a vertex: the position starts it, the
/// texture coordinate follows at once, and together they fill the stride,
/// which is the size of a vertex.
pub proof fn lemma_attributes_tile_vertex()
    ensures
        terrain_pipeline().position.offset == 0,
        terrain_pipeline().tex_coord.offset == terrain_pipeline().position.offset + format_bytes(
            terrain_pipeline().position.format,
        ),
        terrain_pipeline().stride == terrain_pipeline().tex_coord.offset + format_bytes(
            terrain_pipeline().tex_coord.format,
        ),
        terrain_pipeline().stride == VERTEX_SIZE,
{
}

/// Whatever the coordinates and elevations, the bytes of a mesh are
/// exactly as many as the mesh buffers hold, so a rebuilt mesh can
/// overwrite the one before in place.
pub proof fn lemma_mesh_fits_buffers(axis: Seq<u32>, tex_axis: Seq<u32>, heights: Seq<u32>)
    ensures
        vertex_buffer_bytes(mesh_vertices(axis, tex_axis, heights)).len() == buffers().vertex.len,
        index_buffer_bytes(mesh_indices()).len() == buffers().index.len,
{
}

/// The copies of a rebuild fill the mesh buffers: the vertex copy is as
/// long as the vertex buffer, the index copy as long as the index buffer.
pub proof fn lemma_mesh_copies_fit(state: RenderState)
    ensures
        state.mesh_copies().len() == 2,
        state.mesh_copies()[0]->CopyVertices_len == buffers().vertex.len,
        state.mesh_copies()[1]->CopyIndices_len == buffers().index.len,
{
}

/// The placeholder texture's texels are exactly what its upload copies:
/// as many rows as the texture is high, each of the upload's row length,
/// which is four bytes for each texel of a row.
pub proof fn lemma_texels_fill_texture()
    ensures
        placeholder_upload().width == placeholder_texture().width,
        placeholder_upload().height == placeholder_texture().height,
        placeholder_upload().bytes_per_row == 4 * placeholder_texture().width,
        texels(placeholder_texture().width).len() == placeholder_upload().bytes_per_row
            * placeholder_upload().height,
{
}

} // verus!
