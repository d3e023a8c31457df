use vstd::prelude::*;
use crate::commands::ColorBits;

verus! {

/// Usage bits that a buffer descriptor may combine.
#[derive(Clone, Copy, Debug, PartialEq, Eq, Structural)]
pub struct BufferUsage {
    pub copy_src: u32,
    pub copy_dst: u32,
    pub storage: u32,
    pub uniform: u32,
    pub vertex: u32,
    pub index: u32,
    pub map_read: u32,
    pub map_write: u32,
}

/// The buffer usage bits.
pub fn buffer_usage() -> (u: BufferUsage)
    ensures
        u == (BufferUsage {
            copy_src: 0x4,
            copy_dst: 0x8,
            storage: 0x80,
            uniform: 0x40,
            vertex: 0x20,
            index: 0x10,
            map_read: 0x1,
            map_write: 0x2,
        }),
{
    BufferUsage {
        copy_src: 0x4,
        copy_dst: 0x8,
        storage: 0x80,
        uniform: 0x40,
        vertex: 0x20,
        index: 0x10,
        map_read: 0x1,
        map_write: 0x2,
    }
}

/// Access bits for mapping a buffer.
#[derive(Clone, Copy, Debug, PartialEq, Eq, Structural)]
pub struct MapMode {
    pub read: u32,
    pub write: u32,
}

/// The map access bits.
pub fn map_mode() -> (m: MapMode)
    ensures
        m == (MapMode { read: 1, write: 2 }),
{
    MapMode { read: 1, write: 2 }
}

/// Usage bits that a texture descriptor may combine.
#[derive(Clone, Copy, Debug, PartialEq, Eq, Structural)]
pub struct TextureUsage {
    pub copy_src: u32,
    pub copy_dst: u32,
    pub texture_binding: u32,
    pub storage_binding: u32,
    pub render_attachment: u32,
}

/// The texture usage bits.
pub fn texture_usage() -> (u: TextureUsage)
    ensures
        u == (TextureUsage {
            copy_src: 0x1,
            copy_dst: 0x2,
            texture_binding: 0x4,
            storage_binding: 0x8,
            render_attachment: 0x10,
        }),
{
    TextureUsage { copy_src: 0x1, copy_dst: 0x2, texture_binding: 0x4, storage_binding: 0x8, render_attachment: 0x10 }
}

#[derive(Debug)]
pub struct BufferDescriptor {
    pub label: Option<String>,
    pub size: i64,
    pub usage: u32,
    pub mapped_at_creation: Option<bool>,
}

#[derive(Debug)]
pub struct ShaderModuleDescriptor {
    pub label: Option<String>,
    pub code: String,
}

/// A pipeline layout's label; its bind group layouts are passed beside it.
#[derive(Debug)]
pub struct PipelineLayoutDescriptor {
    pub label: Option<String>,
}

/// A compute pipeline's label and stage; its layout and module are passed beside it.
#[derive(Debug)]
pub struct ComputePipelineDescriptor {
    pub label: Option<String>,
    pub compute: ComputeStage,
}

#[derive(Debug)]
pub struct ComputeStage {
    pub entry_point: String,
}

#[derive(Debug)]
pub struct CommandEncoderDescriptor {
    pub label: Option<String>,
}

/// A bind group's label; its layout and entries are passed beside it.
#[derive(Debug)]
pub struct BindGroupDescriptor {
    pub label: Option<String>,
}

/// One buffer binding of a bind group; the buffer is passed beside it.
#[derive(Clone, Copy, Debug, PartialEq, Eq, Structural)]
pub struct BindGroupEntry {
    pub binding: u32,
    pub offset: Option<i64>,
    pub size: Option<i64>,
}

#[derive(Debug)]
pub struct BindGroupLayoutDescriptor {
    pub label: Option<String>,
    pub entries: Vec<BindGroupLayoutEntry>,
}

/// One slot of a bind group layout. `visibility` combines 1 (vertex),
/// 2 (fragment) and 4 (compute); the first of `buffer`, `sampler`, `texture`
/// and `storage_texture` that is present gives the kind of resource.
#[derive(Debug)]
pub struct BindGroupLayoutEntry {
    pub binding: u32,
    pub visibility: u32,
    pub buffer: Option<BufferBindingLayout>,
    pub sampler: Option<SamplerBindingLayout>,
    pub texture: Option<TextureBindingLayout>,
    pub storage_texture: Option<StorageTextureBindingLayout>,
}

#[derive(Debug)]
pub struct BufferBindingLayout {
    pub ty: Option<String>,
    pub has_dynamic_offset: Option<bool>,
    pub min_binding_size: Option<i64>,
}

#[derive(Debug)]
pub struct SamplerBindingLayout {
    pub ty: Option<String>,
}

#[derive(Debug)]
pub struct TextureBindingLayout {
    pub sample_type: Option<String>,
    pub view_dimension: Option<String>,
    pub multisampled: Option<bool>,
}

#[derive(Debug)]
pub struct StorageTextureBindingLayout {
    pub access: Option<String>,
    pub format: String,
    pub view_dimension: Option<String>,
}

/// A render pipeline's settings; its layout and shader modules are passed beside it.
#[derive(Debug)]
pub struct RenderPipelineDescriptor {
    pub label: Option<String>,
    pub vertex: VertexState,
    pub primitive: Option<PrimitiveState>,
    pub depth_stencil: Option<DepthStencilState>,
    pub multisample: Option<MultisampleState>,
    pub fragment: Option<FragmentState>,
}

#[derive(Debug)]
pub struct VertexState {
    pub entry_point: String,
    pub buffers: Option<Vec<VertexBufferLayout>>,
}

#[derive(Debug)]
pub struct VertexBufferLayout {
    pub array_stride: i64,
    pub step_mode: Option<String>,
    pub attributes: Vec<VertexAttribute>,
}

#[derive(Debug)]
pub struct VertexAttribute {
    pub format: String,
    pub offset: i64,
    pub shader_location: u32,
}

#[derive(Debug)]
pub struct PrimitiveState {
    pub topology: Option<String>,
    pub strip_index_format: Option<String>,
    pub front_face: Option<String>,
    pub cull_mode: Option<String>,
}

/// Depth and stencil settings of a render pipeline.
#[derive(Debug)]
pub struct DepthStencilState {
    pub format: String,
    pub depth_write_enabled: Option<bool>,
    pub depth_compare: Option<String>,
    pub stencil_front: Option<StencilFaceState>,
    pub stencil_back: Option<StencilFaceState>,
    pub stencil_read_mask: Option<u32>,
    pub stencil_write_mask: Option<u32>,
    pub depth_bias: Option<i32>,
}

#[derive(Debug)]
pub struct StencilFaceState {
    pub compare: Option<String>,
    pub fail_op: Option<String>,
    pub depth_fail_op: Option<String>,
    pub pass_op: Option<String>,
}

#[derive(Clone, Copy, Debug, PartialEq, Eq, Structural)]
pub struct MultisampleState {
    pub count: Option<u32>,
    pub mask: Option<u32>,
    pub alpha_to_coverage_enabled: Option<bool>,
}

#[derive(Debug)]
pub struct FragmentState {
    pub entry_point: String,
    pub targets: Vec<ColorTargetState>,
}

#[derive(Debug)]
pub struct ColorTargetState {
    pub format: String,
    pub blend: Option<BlendState>,
    pub write_mask: Option<u32>,
}

#[derive(Debug)]
pub struct BlendState {
    pub color: BlendComponent,
    pub alpha: BlendComponent,
}

#[derive(Debug)]
pub struct BlendComponent {
    pub src_factor: String,
    pub dst_factor: String,
    pub operation: String,
}

#[derive(Debug)]
pub struct ComputePassDescriptor {
    pub label: Option<String>,
}

/// A texture's settings.
#[derive(Debug)]
pub struct TextureDescriptor {
    pub label: Option<String>,
    pub width: u32,
    pub height: u32,
    pub depth: Option<u32>,
    pub format: String,
    pub usage: u32,
    pub dimension: Option<String>,
    pub mip_level_count: Option<u32>,
    pub sample_count: Option<u32>,
}

/// A query set's settings; the type is `timestamp` or `occlusion`.
#[derive(Debug)]
pub struct QuerySetDescriptor {
    pub label: Option<String>,
    pub query_type: String,
    pub count: u32,
}

/// A render pass's targets; the views are passed beside it.
#[derive(Debug)]
pub struct RenderPassDescriptor {
    pub label: Option<String>,
    pub color_attachments: Vec<RenderPassColorAttachment>,
    pub depth_stencil_attachment: Option<RenderPassDepthStencilAttachment>,
}

/// A colour target's operations; the clear value is four IEEE-754 binary64
/// bit patterns.
#[derive(Debug)]
pub struct RenderPassColorAttachment {
    pub clear_value: Option<ColorBits>,
    pub load_op: String,
    pub store_op: String,
}

/// The depth target's operations; the clear value is an IEEE-754 binary64
/// bit pattern.
#[derive(Debug)]
pub struct RenderPassDepthStencilAttachment {
    pub depth_clear_value: Option<u64>,
    pub depth_load_op: Option<String>,
    pub depth_store_op: Option<String>,
    pub stencil_clear_value: Option<u32>,
    pub stencil_load_op: Option<String>,
    pub stencil_store_op: Option<String>,
}

/// The limits a device supports.
#[derive(Clone, Copy, Debug, PartialEq, Eq, Structural)]
pub struct GpuSupportedLimits {
    pub max_texture_dimension_1d: u32,
    pub max_texture_dimension_2d: u32,
    pub max_texture_dimension_3d: u32,
    pub max_texture_array_layers: u32,
    pub max_bind_groups: u32,
    pub max_bind_groups_plus_vertex_buffers: u32,
    pub max_bindings_per_bind_group: u32,
    pub max_dynamic_uniform_buffers_per_pipeline_layout: u32,
    pub max_dynamic_storage_buffers_per_pipeline_layout: u32,
    pub max_sampled_textures_per_shader_stage: u32,
    pub max_samplers_per_shader_stage: u32,
    pub max_storage_buffers_per_shader_stage: u32,
    pub max_storage_textures_per_shader_stage: u32,
    pub max_uniform_buffers_per_shader_stage: u32,
    pub max_uniform_buffer_binding_size: i64,
    pub max_storage_buffer_binding_size: i64,
    pub min_uniform_buffer_offset_alignment: u32,
    pub min_storage_buffer_offset_alignment: u32,
    pub max_vertex_buffers: u32,
    pub max_buffer_size: i64,
    pub max_vertex_attributes: u32,
    pub max_vertex_buffer_array_stride: u32,
    pub max_inter_stage_shader_components: u32,
    pub max_compute_workgroup_storage_size: u32,
    pub max_compute_invocations_per_workgroup: u32,
    pub max_compute_workgroup_size_x: u32,
    pub max_compute_workgroup_size_y: u32,
    pub max_compute_workgroup_size_z: u32,
    pub max_compute_workgroups_per_dimension: u32,
}

} // verus!
