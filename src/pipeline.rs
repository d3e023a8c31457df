use vstd::prelude::*;
use crate::descriptors::{
    BindGroupLayoutEntry, BlendComponent, BlendState, BufferDescriptor, ColorTargetState,
    DepthStencilState, MultisampleState, PrimitiveState, QuerySetDescriptor, TextureDescriptor,
    VertexAttribute, VertexBufferLayout,
};
use crate::error::GpuError;
use crate::native::{buffer_usage_bits, color_write_bits, texture_usage_bits};
use crate::tokens::{
    address_mode_of, filter_mode_of, parse_address_mode, parse_filter_mode, AddressMode, FilterMode,
    blend_factor_of, blend_operation_of, buffer_binding_type_of, compare_function_of, cull_mode_of,
    front_face_of, parse_blend_factor, parse_blend_operation, parse_buffer_binding_type,
    parse_compare_function, parse_cull_mode, parse_front_face, parse_query_type, parse_step_mode,
    parse_texture_dimension, parse_texture_format, parse_topology, parse_vertex_format,
    query_type_of, step_mode_of, texture_dimension_of, texture_format_of, topology_of,
    vertex_format_of, BlendFactor, BlendOperation, BufferBindingType, CompareFunction, Face,
    FrontFace, PrimitiveTopology, QueryType, TextureDimension, TextureFormat, VertexFormat,
    VertexStepMode,
};

verus! {

/// The shader stages that see a binding.
#[derive(Clone, Copy, Debug, PartialEq, Eq, Structural)]
pub struct ShaderStageSet {
    pub vertex: bool,
    pub fragment: bool,
    pub compute: bool,
}

/// The stages that a visibility mask names: 1 is the vertex stage, 2 the
/// fragment stage, 4 the compute stage; other bits are ignored.
pub open spec fn stages_of(visibility: u32) -> ShaderStageSet {
    ShaderStageSet {
        vertex: visibility & 1 != 0,
        fragment: visibility & 2 != 0,
        compute: visibility & 4 != 0,
    }
}

pub fn parse_visibility(visibility: u32) -> (s: ShaderStageSet)
    ensures
        s == stages_of(visibility),
{
    ShaderStageSet {
        vertex: visibility & 1 != 0,
        fragment: visibility & 2 != 0,
        compute: visibility & 4 != 0,
    }
}

/// The kind of resource a bind group layout slot holds. A sampler slot
/// filters; a texture slot holds a filterable float 2D texture, single
/// sampled; a storage texture slot holds a write-only `rgba8unorm` 2D texture.
#[derive(Clone, Copy, Debug, PartialEq, Eq, Structural)]
pub enum BindingKind {
    Buffer { ty: BufferBindingType, has_dynamic_offset: bool, min_binding_size: Option<u64> },
    Sampler,
    Texture,
    StorageTexture,
}

/// One resolved slot of a bind group layout.
#[derive(Clone, Copy, Debug, PartialEq, Eq, Structural)]
pub struct BindingLayout {
    pub binding: u32,
    pub visibility: ShaderStageSet,
    pub kind: BindingKind,
}

/// A minimum binding size: zero means none.
pub open spec fn nonzero_size(size: Option<i64>) -> Option<u64> {
    match size {
        Some(s) => if s as u64 != 0 {
            Some(s as u64)
        } else {
            None
        },
        None => None,
    }
}

/// The resource kind of a layout slot: the first of buffer, sampler,
/// texture and storage texture that is present, a uniform buffer if none is.
pub open spec fn binding_kind_of(e: BindGroupLayoutEntry) -> BindingKind {
    match e.buffer {
        Some(b) => BindingKind::Buffer {
            ty: match b.ty {
                Some(t) => buffer_binding_type_of(t@),
                None => BufferBindingType::Uniform,
            },
            has_dynamic_offset: match b.has_dynamic_offset {
                Some(d) => d,
                None => false,
            },
            min_binding_size: nonzero_size(b.min_binding_size),
        },
        None => if e.sampler.is_some() {
            BindingKind::Sampler
        } else if e.texture.is_some() {
            BindingKind::Texture
        } else if e.storage_texture.is_some() {
            BindingKind::StorageTexture
        } else {
            BindingKind::Buffer { ty: BufferBindingType::Uniform, has_dynamic_offset: false, min_binding_size: None }
        },
    }
}

/// Resolves one slot of a bind group layout.
pub fn convert_bind_group_layout_entry(entry: &BindGroupLayoutEntry) -> (r: BindingLayout)
    ensures
        r == (BindingLayout {
            binding: entry.binding,
            visibility: stages_of(entry.visibility),
            kind: binding_kind_of(*entry),
        }),
{
    let visibility = parse_visibility(entry.visibility);
    let kind = match &entry.buffer {
        Some(b) => {
            let ty = match &b.ty {
                Some(t) => parse_buffer_binding_type(t.as_str()),
                None => BufferBindingType::Uniform,
            };
            let has_dynamic_offset = match b.has_dynamic_offset {
                Some(d) => d,
                None => false,
            };
            let min_binding_size = match b.min_binding_size {
                Some(s) => if s as u64 != 0 {
                    Some(s as u64)
                } else {
                    None
                },
                None => None,
            };
            BindingKind::Buffer { ty, has_dynamic_offset, min_binding_size }
        },
        None => if entry.sampler.is_some() {
            BindingKind::Sampler
        } else if entry.texture.is_some() {
            BindingKind::Texture
        } else if entry.storage_texture.is_some() {
            BindingKind::StorageTexture
        } else {
            BindingKind::Buffer { ty: BufferBindingType::Uniform, has_dynamic_offset: false, min_binding_size: None }
        },
    };
    BindingLayout { binding: entry.binding, visibility, kind }
}

/// Resolves every slot of a bind group layout, in order.
pub fn convert_bind_group_layout_entries(entries: &Vec<BindGroupLayoutEntry>) -> (r: Vec<BindingLayout>)
    ensures
        r@.len() == entries@.len(),
        forall|i: int|
            0 <= i < entries@.len() ==> #[trigger] r@[i] == (BindingLayout {
                binding: entries@[i].binding,
                visibility: stages_of(entries@[i].visibility),
                kind: binding_kind_of(entries@[i]),
            }),
{
    let mut out: Vec<BindingLayout> = Vec::new();
    let mut i: usize = 0;
    while i < entries.len()
        invariant
            i <= entries@.len(),
            out@.len() == i,
            forall|j: int|
                0 <= j < i ==> #[trigger] out@[j] == (BindingLayout {
                    binding: entries@[j].binding,
                    visibility: stages_of(entries@[j].visibility),
                    kind: binding_kind_of(entries@[j]),
                }),
        decreases entries@.len() - i,
    {
        out.push(convert_bind_group_layout_entry(&entries[i]));
        i = i + 1;
    }
    out
}

/// A buffer's resolved settings: its size read as unsigned, its usage with
/// unknown bits dropped, and whether it starts mapped.
#[derive(Clone, Copy, Debug, PartialEq, Eq, Structural)]
pub struct BufferSettings {
    pub size: u64,
    pub usage: u32,
    pub mapped_at_creation: bool,
}

pub fn resolve_buffer_descriptor(descriptor: &BufferDescriptor) -> (r: BufferSettings)
    ensures
        r == (BufferSettings {
            size: descriptor.size as u64,
            usage: descriptor.usage & 0x3ff,
            mapped_at_creation: match descriptor.mapped_at_creation {
                Some(m) => m,
                None => false,
            },
        }),
{
    BufferSettings {
        size: descriptor.size as u64,
        usage: buffer_usage_bits(descriptor.usage),
        mapped_at_creation: match descriptor.mapped_at_creation {
            Some(m) => m,
            None => false,
        },
    }
}

/// A texture's resolved settings.
#[derive(Clone, Copy, Debug, PartialEq, Eq, Structural)]
pub struct TextureSettings {
    pub width: u32,
    pub height: u32,
    pub depth_or_array_layers: u32,
    pub mip_level_count: u32,
    pub sample_count: u32,
    pub dimension: TextureDimension,
    pub format: TextureFormat,
    pub usage: u32,
}

/// Resolves a texture descriptor: depth, mip level count and sample count
/// default to 1, the dimension to 2D, and unknown usage bits are dropped.
pub fn resolve_texture_descriptor(descriptor: &TextureDescriptor) -> (r: TextureSettings)
    ensures
        r == (TextureSettings {
            width: descriptor.width,
            height: descriptor.height,
            depth_or_array_layers: crate::session::or_default(descriptor.depth, 1),
            mip_level_count: crate::session::or_default(descriptor.mip_level_count, 1),
            sample_count: crate::session::or_default(descriptor.sample_count, 1),
            dimension: texture_dimension_of(descriptor.dimension),
            format: texture_format_of(descriptor.format@),
            usage: descriptor.usage & 0x1f,
        }),
{
    TextureSettings {
        width: descriptor.width,
        height: descriptor.height,
        depth_or_array_layers: match descriptor.depth {
            Some(d) => d,
            None => 1,
        },
        mip_level_count: match descriptor.mip_level_count {
            Some(m) => m,
            None => 1,
        },
        sample_count: match descriptor.sample_count {
            Some(s) => s,
            None => 1,
        },
        dimension: parse_texture_dimension(&descriptor.dimension),
        format: parse_texture_format(descriptor.format.as_str()),
        usage: texture_usage_bits(descriptor.usage),
    }
}

/// Resolves a query set descriptor; a type other than `timestamp` or
/// `occlusion` is refused.
pub fn resolve_query_set(descriptor: &QuerySetDescriptor) -> (r: Result<(QueryType, u32), GpuError>)
    ensures
        r == match query_type_of(descriptor.query_type@) {
            Some(t) => Ok((t, descriptor.count)),
            None => Err(GpuError::InvalidQueryType),
        },
{
    match parse_query_type(descriptor.query_type.as_str()) {
        Some(t) => Ok((t, descriptor.count)),
        None => Err(GpuError::InvalidQueryType),
    }
}


/// One vertex attribute, resolved.
#[derive(Clone, Copy, Debug, PartialEq, Eq, Structural)]
pub struct VertexAttributeSettings {
    pub format: VertexFormat,
    pub offset: u64,
    pub shader_location: u32,
}

pub open spec fn attribute_settings(a: VertexAttribute) -> VertexAttributeSettings {
    VertexAttributeSettings { format: vertex_format_of(a.format@), offset: a.offset as u64, shader_location: a.shader_location }
}

/// One vertex buffer layout, resolved.
#[derive(Debug)]
pub struct VertexBufferSettings {
    pub array_stride: u64,
    pub step_mode: VertexStepMode,
    pub attributes: Vec<VertexAttributeSettings>,
}

/// Whether `s` is the resolution of the layout `b`: the stride read as
/// unsigned, the step mode (per vertex unless `instance`), and each
/// attribute in order.
pub open spec fn resolves_vertex_buffer(b: VertexBufferLayout, s: VertexBufferSettings) -> bool {
    &&& s.array_stride == b.array_stride as u64
    &&& s.step_mode == step_mode_of(b.step_mode)
    &&& s.attributes@ == b.attributes@.map_values(|a: VertexAttribute| attribute_settings(a))
}

#[derive(Clone, Copy, Debug, PartialEq, Eq, Structural)]
pub struct PrimitiveSettings {
    pub topology: PrimitiveTopology,
    pub front_face: FrontFace,
    pub cull_mode: Option<Face>,
}

pub open spec fn primitive_settings(p: PrimitiveState) -> PrimitiveSettings {
    PrimitiveSettings {
        topology: topology_of(p.topology),
        front_face: front_face_of(p.front_face),
        cull_mode: cull_mode_of(p.cull_mode),
    }
}

#[derive(Clone, Copy, Debug, PartialEq, Eq, Structural)]
pub struct DepthStencilSettings {
    pub format: TextureFormat,
    pub depth_write_enabled: bool,
    pub depth_compare: CompareFunction,
}

/// Depth settings: writes on and a `less` comparison unless given.
pub open spec fn depth_stencil_settings(d: DepthStencilState) -> DepthStencilSettings {
    DepthStencilSettings {
        format: texture_format_of(d.format@),
        depth_write_enabled: crate::session::or_default(d.depth_write_enabled, true),
        depth_compare: crate::session::or_default(compare_function_of(d.depth_compare), CompareFunction::Less),
    }
}

#[derive(Clone, Copy, Debug, PartialEq, Eq, Structural)]
pub struct MultisampleSettings {
    pub count: u32,
    pub mask: u64,
    pub alpha_to_coverage_enabled: bool,
}

/// Multisampling: one sample, every sample enabled and no alpha to coverage
/// unless given.
pub open spec fn multisample_settings(m: MultisampleState) -> MultisampleSettings {
    MultisampleSettings {
        count: crate::session::or_default(m.count, 1),
        mask: match m.mask {
            Some(x) => x as u64,
            None => u64::MAX,
        },
        alpha_to_coverage_enabled: crate::session::or_default(m.alpha_to_coverage_enabled, false),
    }
}

#[derive(Clone, Copy, Debug, PartialEq, Eq, Structural)]
pub struct BlendEquation {
    pub src_factor: BlendFactor,
    pub dst_factor: BlendFactor,
    pub operation: BlendOperation,
}

pub open spec fn blend_equation(c: BlendComponent) -> BlendEquation {
    BlendEquation {
        src_factor: blend_factor_of(c.src_factor@),
        dst_factor: blend_factor_of(c.dst_factor@),
        operation: blend_operation_of(c.operation@),
    }
}

#[derive(Clone, Copy, Debug, PartialEq, Eq, Structural)]
pub struct BlendSettings {
    pub color: BlendEquation,
    pub alpha: BlendEquation,
}

pub open spec fn blend_settings(b: BlendState) -> BlendSettings {
    BlendSettings { color: blend_equation(b.color), alpha: blend_equation(b.alpha) }
}

/// The channels a target writes: the given mask when it names only red,
/// green, blue and alpha bits, all four otherwise.
pub open spec fn write_mask_of(m: Option<u32>) -> u32 {
    match m {
        Some(x) => if x & 0xf == x {
            x
        } else {
            0xf
        },
        None => 0xf,
    }
}

#[derive(Clone, Copy, Debug, PartialEq, Eq, Structural)]
pub struct ColorTargetSettings {
    pub format: TextureFormat,
    pub blend: Option<BlendSettings>,
    pub write_mask: u32,
}

pub open spec fn target_settings(t: ColorTargetState) -> ColorTargetSettings {
    ColorTargetSettings {
        format: texture_format_of(t.format@),
        blend: match t.blend {
            Some(b) => Some(blend_settings(b)),
            None => None,
        },
        write_mask: write_mask_of(t.write_mask),
    }
}

/// A render pipeline's resolved settings. An absent primitive or multisample
/// state stands for the device's defaults; `targets` is empty without a
/// fragment stage.
#[derive(Debug)]
pub struct RenderPipelineSettings {
    pub vertex_buffers: Vec<VertexBufferSettings>,
    pub primitive: Option<PrimitiveSettings>,
    pub depth_stencil: Option<DepthStencilSettings>,
    pub multisample: Option<MultisampleSettings>,
    pub targets: Vec<ColorTargetSettings>,
}

fn resolve_blend_equation(c: &BlendComponent) -> (r: BlendEquation)
    ensures
        r == blend_equation(*c),
{
    BlendEquation {
        src_factor: parse_blend_factor(c.src_factor.as_str()),
        dst_factor: parse_blend_factor(c.dst_factor.as_str()),
        operation: parse_blend_operation(c.operation.as_str()),
    }
}

fn resolve_target(t: &ColorTargetState) -> (r: ColorTargetSettings)
    ensures
        r == target_settings(*t),
{
    let blend = match &t.blend {
        Some(b) => Some(BlendSettings { color: resolve_blend_equation(&b.color), alpha: resolve_blend_equation(&b.alpha) }),
        None => None,
    };
    let write_mask = match t.write_mask {
        Some(m) => match color_write_bits(m) {
            Some(w) => w,
            None => 0xf,
        },
        None => 0xf,
    };
    ColorTargetSettings { format: parse_texture_format(t.format.as_str()), blend, write_mask }
}

fn resolve_vertex_buffer(b: &VertexBufferLayout) -> (r: VertexBufferSettings)
    ensures
        resolves_vertex_buffer(*b, r),
{
    let mut attributes: Vec<VertexAttributeSettings> = Vec::new();
    let mut i: usize = 0;
    while i < b.attributes.len()
        invariant
            i <= b.attributes@.len(),
            attributes@ == b.attributes@.take(i as int).map_values(|a: VertexAttribute| attribute_settings(a)),
        decreases b.attributes@.len() - i,
    {
        let a = &b.attributes[i];
        attributes.push(
            VertexAttributeSettings {
                format: parse_vertex_format(a.format.as_str()),
                offset: a.offset as u64,
                shader_location: a.shader_location,
            },
        );
        assert(b.attributes@.take(i + 1) =~= b.attributes@.take(i as int).push(b.attributes@[i as int]));
        assert(attributes@ =~= b.attributes@.take(i + 1).map_values(|a: VertexAttribute| attribute_settings(a)));
        i = i + 1;
    }
    assert(b.attributes@.take(i as int) =~= b.attributes@);
    VertexBufferSettings {
        array_stride: b.array_stride as u64,
        step_mode: parse_step_mode(&b.step_mode),
        attributes,
    }
}

/// Resolves a render pipeline descriptor: every vertex buffer layout and
/// colour target in order, and each optional state when it is present.
pub fn resolve_render_pipeline(descriptor: &crate::descriptors::RenderPipelineDescriptor) -> (r: RenderPipelineSettings)
    ensures
        ({
            let bufs = match descriptor.vertex.buffers {
                Some(v) => v@,
                None => Seq::empty(),
            };
            &&& r.vertex_buffers@.len() == bufs.len()
            &&& forall|i: int| 0 <= i < bufs.len() ==> resolves_vertex_buffer(bufs[i], #[trigger] r.vertex_buffers@[i])
        }),
        r.primitive == match descriptor.primitive {
            Some(p) => Some(primitive_settings(p)),
            None => None::<PrimitiveSettings>,
        },
        r.depth_stencil == match descriptor.depth_stencil {
            Some(d) => Some(depth_stencil_settings(d)),
            None => None::<DepthStencilSettings>,
        },
        r.multisample == match descriptor.multisample {
            Some(m) => Some(multisample_settings(m)),
            None => None::<MultisampleSettings>,
        },
        r.targets@ == match descriptor.fragment {
            Some(f) => f.targets@.map_values(|t: ColorTargetState| target_settings(t)),
            None => Seq::empty(),
        },
{
    let mut vertex_buffers: Vec<VertexBufferSettings> = Vec::new();
    match &descriptor.vertex.buffers {
        Some(bufs) => {
            let mut i: usize = 0;
            while i < bufs.len()
                invariant
                    i <= bufs@.len(),
                    vertex_buffers@.len() == i,
                    forall|j: int| 0 <= j < i ==> resolves_vertex_buffer(bufs@[j], #[trigger] vertex_buffers@[j]),
                decreases bufs@.len() - i,
            {
                vertex_buffers.push(resolve_vertex_buffer(&bufs[i]));
                i = i + 1;
            }
        },
        None => {},
    }
    let primitive = match &descriptor.primitive {
        Some(p) => Some(
            PrimitiveSettings {
                topology: parse_topology(&p.topology),
                front_face: parse_front_face(&p.front_face),
                cull_mode: parse_cull_mode(&p.cull_mode),
            },
        ),
        None => None,
    };
    let depth_stencil = match &descriptor.depth_stencil {
        Some(d) => Some(
            DepthStencilSettings {
                format: parse_texture_format(d.format.as_str()),
                depth_write_enabled: match d.depth_write_enabled {
                    Some(w) => w,
                    None => true,
                },
                depth_compare: match parse_compare_function(&d.depth_compare) {
                    Some(c) => c,
                    None => CompareFunction::Less,
                },
            },
        ),
        None => None,
    };
    let multisample = match &descriptor.multisample {
        Some(m) => Some(
            MultisampleSettings {
                count: match m.count {
                    Some(c) => c,
                    None => 1,
                },
                mask: match m.mask {
                    Some(x) => x as u64,
                    None => u64::MAX,
                },
                alpha_to_coverage_enabled: match m.alpha_to_coverage_enabled {
                    Some(a) => a,
                    None => false,
                },
            },
        ),
        None => None,
    };
    let mut targets: Vec<ColorTargetSettings> = Vec::new();
    match &descriptor.fragment {
        Some(f) => {
            let mut i: usize = 0;
            while i < f.targets.len()
                invariant
                    i <= f.targets@.len(),
                    targets@ == f.targets@.take(i as int).map_values(|t: ColorTargetState| target_settings(t)),
                decreases f.targets@.len() - i,
            {
                targets.push(resolve_target(&f.targets[i]));
                assert(f.targets@.take(i + 1) =~= f.targets@.take(i as int).push(f.targets@[i as int]));
                assert(targets@ =~= f.targets@.take(i + 1).map_values(|t: ColorTargetState| target_settings(t)));
                i = i + 1;
            }
            assert(f.targets@.take(i as int) =~= f.targets@);
        },
        None => {
            assert(targets@ =~= Seq::empty());
        },
    }
    RenderPipelineSettings { vertex_buffers, primitive, depth_stencil, multisample, targets }
}


/// A sampler's settings. The level-of-detail clamps are IEEE-754 binary64
/// bit patterns.
#[derive(Debug)]
pub struct SamplerDescriptor {
    pub label: Option<String>,
    pub address_mode_u: Option<String>,
    pub address_mode_v: Option<String>,
    pub address_mode_w: Option<String>,
    pub mag_filter: Option<String>,
    pub min_filter: Option<String>,
    pub mipmap_filter: Option<String>,
    pub lod_min_clamp: Option<u64>,
    pub lod_max_clamp: Option<u64>,
    pub compare: Option<String>,
    pub max_anisotropy: Option<u32>,
}

/// Bit pattern of the binary64 value 32.0, the default upper level-of-detail clamp.
pub const LOD_MAX_DEFAULT: u64 = 0x4040_0000_0000_0000;

/// A sampler's resolved settings.
#[derive(Clone, Copy, Debug, PartialEq, Eq, Structural)]
pub struct SamplerSettings {
    pub address_mode_u: AddressMode,
    pub address_mode_v: AddressMode,
    pub address_mode_w: AddressMode,
    pub mag_filter: FilterMode,
    pub min_filter: FilterMode,
    pub mipmap_filter: FilterMode,
    pub lod_min_clamp: u64,
    pub lod_max_clamp: u64,
    pub compare: Option<CompareFunction>,
    pub anisotropy_clamp: u16,
}

/// Resolves a sampler descriptor: clamp-to-edge, nearest filtering, a
/// level-of-detail range of 0.0 to 32.0, no comparison and an anisotropy of
/// 1 (cut to 16 bits) unless given.
pub fn resolve_sampler(descriptor: &SamplerDescriptor) -> (r: SamplerSettings)
    ensures
        r == (SamplerSettings {
            address_mode_u: address_mode_of(descriptor.address_mode_u),
            address_mode_v: address_mode_of(descriptor.address_mode_v),
            address_mode_w: address_mode_of(descriptor.address_mode_w),
            mag_filter: filter_mode_of(descriptor.mag_filter),
            min_filter: filter_mode_of(descriptor.min_filter),
            mipmap_filter: filter_mode_of(descriptor.mipmap_filter),
            lod_min_clamp: crate::session::or_default(descriptor.lod_min_clamp, 0),
            lod_max_clamp: crate::session::or_default(descriptor.lod_max_clamp, LOD_MAX_DEFAULT),
            compare: compare_function_of(descriptor.compare),
            anisotropy_clamp: crate::session::or_default(descriptor.max_anisotropy, 1) as u16,
        }),
{
    SamplerSettings {
        address_mode_u: parse_address_mode(&descriptor.address_mode_u),
        address_mode_v: parse_address_mode(&descriptor.address_mode_v),
        address_mode_w: parse_address_mode(&descriptor.address_mode_w),
        mag_filter: parse_filter_mode(&descriptor.mag_filter),
        min_filter: parse_filter_mode(&descriptor.min_filter),
        mipmap_filter: parse_filter_mode(&descriptor.mipmap_filter),
        lod_min_clamp: match descriptor.lod_min_clamp {
            Some(v) => v,
            None => 0,
        },
        lod_max_clamp: match descriptor.lod_max_clamp {
            Some(v) => v,
            None => LOD_MAX_DEFAULT,
        },
        compare: parse_compare_function(&descriptor.compare),
        anisotropy_clamp: match descriptor.max_anisotropy {
            Some(a) => a as u16,
            None => 1,
        },
    }
}

/// The combined count of bind groups and vertex buffers a device allows.
pub fn bind_groups_plus_vertex_buffers(max_bind_groups: u32, max_vertex_buffers: u32) -> (r: u32)
    requires
        max_bind_groups + max_vertex_buffers <= u32::MAX,
    ensures
        r == max_bind_groups + max_vertex_buffers,
{
    max_bind_groups + max_vertex_buffers
}


/// A buffer binding of a bind group, resolved: the slot, the offset (0
/// unless given) and the size (the rest of the buffer when absent or zero).
#[derive(Clone, Copy, Debug, PartialEq, Eq, Structural)]
pub struct BufferBinding {
    pub binding: u32,
    pub offset: u64,
    pub size: Option<u64>,
}

pub fn resolve_buffer_binding(entry: &crate::descriptors::BindGroupEntry) -> (r: BufferBinding)
    ensures
        r == (BufferBinding {
            binding: entry.binding,
            offset: crate::session::or_default(entry.offset, 0) as u64,
            size: nonzero_size(entry.size),
        }),
{
    let offset = match entry.offset {
        Some(o) => o as u64,
        None => 0,
    };
    let size = match entry.size {
        Some(s) => if s as u64 != 0 {
            Some(s as u64)
        } else {
            None
        },
        None => None,
    };
    BufferBinding { binding: entry.binding, offset, size }
}

} // verus!
