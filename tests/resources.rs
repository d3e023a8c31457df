use gpu_bindings::buffer::{GpuBuffer, MapState, UnmapPlan};
use gpu_bindings::bundle::{render_bundle, render_bundle_indexed};
use gpu_bindings::commands::{IndexFormat, RenderCommand};
use gpu_bindings::descriptors::{
    buffer_usage, map_mode, texture_usage, BindGroupLayoutEntry, BlendComponent, BlendState,
    BufferBindingLayout, BufferDescriptor, ColorTargetState, DepthStencilState, FragmentState,
    MultisampleState, PrimitiveState, QuerySetDescriptor, RenderPipelineDescriptor,
    SamplerBindingLayout, TextureBindingLayout, TextureDescriptor, VertexAttribute,
    VertexBufferLayout, VertexState,
};
use gpu_bindings::error::GpuError;
use gpu_bindings::features::{adapter_feature_names, count_ones, has_flag, GpuSupportedFeatures};
use gpu_bindings::pipeline::{
    bind_groups_plus_vertex_buffers, convert_bind_group_layout_entry, parse_visibility,
    resolve_buffer_descriptor, resolve_query_set, resolve_render_pipeline, resolve_sampler,
    resolve_texture_descriptor, BindingKind, SamplerDescriptor, LOD_MAX_DEFAULT,
};
use gpu_bindings::tokens::{
    parse_address_mode, parse_blend_factor, parse_blend_mode, parse_blend_operation,
    parse_compare_function, parse_cull_mode, parse_filter_mode, parse_index_format,
    parse_map_mode, parse_power_preference, parse_texture_format, parse_topology,
    parse_vertex_format, AddressMode, BlendFactor, BlendMode, BlendOperation, BufferBindingType,
    CompareFunction, Face, FilterMode, MapAccess, PowerPreference, PrimitiveTopology, QueryType,
    TextureDimension, TextureFormat, VertexFormat, VertexStepMode,
};

fn some(s: &str) -> Option<String> {
    Some(s.to_string())
}

#[test]
fn tokens_and_their_defaults() {
    assert_eq!(parse_texture_format("bgra8unorm"), TextureFormat::Bgra8Unorm);
    assert_eq!(parse_texture_format("depth32float"), TextureFormat::Depth32Float);
    assert_eq!(parse_texture_format("r8snorm"), TextureFormat::Rgba8Unorm);
    assert_eq!(parse_vertex_format("float32x2"), VertexFormat::Float32x2);
    assert_eq!(parse_vertex_format(""), VertexFormat::Float32x3);
    assert_eq!(parse_blend_mode("additive"), BlendMode::Additive);
    assert_eq!(parse_blend_mode("nope"), BlendMode::Replace);
    assert_eq!(parse_address_mode(&some("mirror-repeat")), AddressMode::MirrorRepeat);
    assert_eq!(parse_address_mode(&None), AddressMode::ClampToEdge);
    assert_eq!(parse_filter_mode(&some("linear")), FilterMode::Linear);
    assert_eq!(parse_filter_mode(&some("cubic")), FilterMode::Nearest);
    assert_eq!(parse_compare_function(&some("greater-equal")), Some(CompareFunction::GreaterEqual));
    assert_eq!(parse_compare_function(&some("less-equal")), Some(CompareFunction::LessEqual));
    assert_eq!(parse_compare_function(&some("sometimes")), None);
    assert_eq!(parse_blend_factor("one-minus-src-alpha"), BlendFactor::OneMinusSrcAlpha);
    assert_eq!(parse_blend_factor("x"), BlendFactor::One);
    assert_eq!(parse_blend_operation("reverse-subtract"), BlendOperation::ReverseSubtract);
    assert_eq!(parse_blend_operation("x"), BlendOperation::Add);
    assert_eq!(parse_topology(&some("line-strip")), PrimitiveTopology::LineStrip);
    assert_eq!(parse_topology(&None), PrimitiveTopology::TriangleList);
    assert_eq!(parse_cull_mode(&some("back")), Some(Face::Back));
    assert_eq!(parse_cull_mode(&some("none")), None);
    assert_eq!(parse_index_format("uint16"), Some(IndexFormat::Uint16));
    assert_eq!(parse_index_format("uint8"), None);
    assert_eq!(parse_map_mode("WRITE"), Some(MapAccess::Write));
    assert_eq!(parse_map_mode("read"), None);
    assert_eq!(parse_power_preference(&some("low-power")), PowerPreference::LowPower);
    assert_eq!(parse_power_preference(&None), PowerPreference::Default);
}

#[test]
fn usage_constants() {
    let b = buffer_usage();
    assert_eq!((b.map_read, b.map_write, b.copy_src, b.copy_dst), (1, 2, 4, 8));
    assert_eq!((b.index, b.vertex, b.uniform, b.storage), (0x10, 0x20, 0x40, 0x80));
    let m = map_mode();
    assert_eq!((m.read, m.write), (1, 2));
    let t = texture_usage();
    assert_eq!((t.copy_src, t.copy_dst, t.texture_binding, t.storage_binding, t.render_attachment), (1, 2, 4, 8, 16));
}

#[test]
fn buffer_descriptor_drops_unknown_usage_bits() {
    let d = BufferDescriptor { label: None, size: 64, usage: 0xffff, mapped_at_creation: None };
    let s = resolve_buffer_descriptor(&d);
    assert_eq!(s.usage, 0x3ff);
    assert_eq!(s.size, 64);
    assert!(!s.mapped_at_creation);
}

#[test]
fn texture_descriptor_defaults() {
    let d = TextureDescriptor {
        label: None,
        width: 8,
        height: 4,
        depth: None,
        format: "rgba16float".to_string(),
        usage: 0xff,
        dimension: Some("3d".to_string()),
        mip_level_count: None,
        sample_count: Some(4),
    };
    let s = resolve_texture_descriptor(&d);
    assert_eq!(s.usage, 0x1f);
    assert_eq!((s.width, s.height, s.depth_or_array_layers, s.mip_level_count, s.sample_count), (8, 4, 1, 1, 4));
    assert_eq!(s.dimension, TextureDimension::D3);
    assert_eq!(s.format, TextureFormat::Rgba16Float);
}

#[test]
fn query_set_types() {
    let ok = QuerySetDescriptor { label: None, query_type: "occlusion".to_string(), count: 8 };
    assert_eq!(resolve_query_set(&ok), Ok((QueryType::Occlusion, 8)));
    let bad = QuerySetDescriptor { label: None, query_type: "pipeline-statistics".to_string(), count: 8 };
    assert_eq!(resolve_query_set(&bad), Err(GpuError::InvalidQueryType));
}

#[test]
fn bind_group_layout_entries() {
    let v = parse_visibility(0b1101);
    assert!(v.vertex && !v.fragment && v.compute);
    let buffer = BindGroupLayoutEntry {
        binding: 2,
        visibility: 4,
        buffer: Some(BufferBindingLayout { ty: some("read-only-storage"), has_dynamic_offset: Some(true), min_binding_size: Some(0) }),
        sampler: Some(SamplerBindingLayout { ty: None }),
        texture: None,
        storage_texture: None,
    };
    let r = convert_bind_group_layout_entry(&buffer);
    assert_eq!(r.binding, 2);
    assert_eq!(
        r.kind,
        BindingKind::Buffer { ty: BufferBindingType::ReadOnlyStorage, has_dynamic_offset: true, min_binding_size: None }
    );
    let texture = BindGroupLayoutEntry {
        binding: 0,
        visibility: 2,
        buffer: None,
        sampler: None,
        texture: Some(TextureBindingLayout { sample_type: None, view_dimension: None, multisampled: None }),
        storage_texture: None,
    };
    assert_eq!(convert_bind_group_layout_entry(&texture).kind, BindingKind::Texture);
    let empty = BindGroupLayoutEntry { binding: 1, visibility: 1, buffer: None, sampler: None, texture: None, storage_texture: None };
    assert_eq!(
        convert_bind_group_layout_entry(&empty).kind,
        BindingKind::Buffer { ty: BufferBindingType::Uniform, has_dynamic_offset: false, min_binding_size: None }
    );
}

#[test]
fn render_pipeline_resolution() {
    let d = RenderPipelineDescriptor {
        label: None,
        vertex: VertexState {
            entry_point: "vs".to_string(),
            buffers: Some(vec![VertexBufferLayout {
                array_stride: 20,
                step_mode: some("instance"),
                attributes: vec![
                    VertexAttribute { format: "float32x2".to_string(), offset: 0, shader_location: 0 },
                    VertexAttribute { format: "uint32".to_string(), offset: 8, shader_location: 1 },
                ],
            }]),
        },
        primitive: Some(PrimitiveState { topology: some("point-list"), strip_index_format: None, front_face: some("cw"), cull_mode: some("front") }),
        depth_stencil: Some(DepthStencilState {
            format: "depth24plus".to_string(),
            depth_write_enabled: None,
            depth_compare: None,
            stencil_front: None,
            stencil_back: None,
            stencil_read_mask: None,
            stencil_write_mask: None,
            depth_bias: None,
        }),
        multisample: Some(MultisampleState { count: Some(4), mask: None, alpha_to_coverage_enabled: None }),
        fragment: Some(FragmentState {
            entry_point: "fs".to_string(),
            targets: vec![
                ColorTargetState {
                    format: "bgra8unorm".to_string(),
                    blend: Some(BlendState {
                        color: BlendComponent { src_factor: "src-alpha".to_string(), dst_factor: "one-minus-src-alpha".to_string(), operation: "add".to_string() },
                        alpha: BlendComponent { src_factor: "one".to_string(), dst_factor: "zero".to_string(), operation: "max".to_string() },
                    }),
                    write_mask: Some(0x1f),
                },
                ColorTargetState { format: "rgba8unorm".to_string(), blend: None, write_mask: Some(0x5) },
            ],
        }),
    };
    let s = resolve_render_pipeline(&d);
    assert_eq!(s.vertex_buffers.len(), 1);
    assert_eq!(s.vertex_buffers[0].array_stride, 20);
    assert_eq!(s.vertex_buffers[0].step_mode, VertexStepMode::Instance);
    assert_eq!(s.vertex_buffers[0].attributes[1].format, VertexFormat::Uint32);
    assert_eq!(s.vertex_buffers[0].attributes[1].offset, 8);
    let p = s.primitive.unwrap();
    assert_eq!(p.topology, PrimitiveTopology::PointList);
    assert_eq!(p.cull_mode, Some(Face::Front));
    let ds = s.depth_stencil.unwrap();
    assert!(ds.depth_write_enabled);
    assert_eq!(ds.depth_compare, CompareFunction::Less);
    assert_eq!(ds.format, TextureFormat::Depth24Plus);
    let ms = s.multisample.unwrap();
    assert_eq!((ms.count, ms.mask, ms.alpha_to_coverage_enabled), (4, u64::MAX, false));
    assert_eq!(s.targets.len(), 2);
    assert_eq!(s.targets[0].write_mask, 0xf);
    assert_eq!(s.targets[1].write_mask, 0x5);
    let blend = s.targets[0].blend.unwrap();
    assert_eq!(blend.color.dst_factor, BlendFactor::OneMinusSrcAlpha);
    assert_eq!(blend.alpha.operation, BlendOperation::Max);
    assert!(s.targets[1].blend.is_none());
}

#[test]
fn sampler_defaults() {
    let d = SamplerDescriptor {
        label: None,
        address_mode_u: some("repeat"),
        address_mode_v: None,
        address_mode_w: None,
        mag_filter: some("linear"),
        min_filter: None,
        mipmap_filter: None,
        lod_min_clamp: None,
        lod_max_clamp: None,
        compare: some("never"),
        max_anisotropy: Some(70000),
    };
    let s = resolve_sampler(&d);
    assert_eq!(s.address_mode_u, AddressMode::Repeat);
    assert_eq!(s.address_mode_v, AddressMode::ClampToEdge);
    assert_eq!(s.mag_filter, FilterMode::Linear);
    assert_eq!(s.min_filter, FilterMode::Nearest);
    assert_eq!(s.lod_min_clamp, 0);
    assert_eq!(s.lod_max_clamp, LOD_MAX_DEFAULT);
    assert_eq!(f64::from_bits(s.lod_max_clamp), 32.0);
    assert_eq!(s.compare, Some(CompareFunction::Never));
    assert_eq!(s.anisotropy_clamp, 70000u32 as u16);
}

#[test]
fn limits_sum() {
    assert_eq!(bind_groups_plus_vertex_buffers(4, 8), 12);
}

#[test]
fn bundles_record_their_draws() {
    let plan = render_bundle(3, &vec![10, 11], 9, Some(vec![20]), &vec!["bgra8unorm".to_string(), "x".to_string()]);
    assert_eq!(plan.color_formats, vec![TextureFormat::Bgra8Unorm, TextureFormat::Rgba8Unorm]);
    assert_eq!(plan.commands.len(), 5);
    assert!(matches!(plan.commands[1], RenderCommand::SetBindGroup { index: 0, group: 20, offsets: None }));
    assert!(matches!(plan.commands[3], RenderCommand::SetVertexBuffer { slot: 1, buffer: 11, .. }));
    assert!(matches!(plan.commands[4], RenderCommand::Draw { vertex_count: 9, instance_count: 1, first_vertex: 0, first_instance: 0 }));
    let indexed = render_bundle_indexed(3, &vec![], 12, "uint32", 6, None, &vec![]);
    assert_eq!(indexed.commands.len(), 3);
    assert!(matches!(indexed.commands[1], RenderCommand::SetIndexBuffer { buffer: 12, format: IndexFormat::Uint32, .. }));
    assert!(matches!(indexed.commands[2], RenderCommand::DrawIndexed { index_count: 6, .. }));
}

#[test]
fn mapped_ranges() {
    let mut b = GpuBuffer::new(64, 0x1, false);
    assert_eq!(b.get_mapped_range(None, None), Err(GpuError::NotMapped));
    assert_eq!(b.begin_map("READ"), Ok(MapAccess::Read));
    assert_eq!(b.map_state(), MapState::Pending);
    assert_eq!(b.map_state().as_str(), "pending");
    assert_eq!(b.complete_map(true), Ok(()));
    assert_eq!(b.get_mapped_range(Some(4), None), Err(GpuError::MisalignedOffset));
    assert_eq!(b.get_mapped_range(Some(8), Some(6)), Err(GpuError::MisalignedSize));
    assert_eq!(b.get_mapped_range(Some(56), Some(16)), Err(GpuError::OutOfBounds));
    assert_eq!(b.get_mapped_range(Some(72), None), Err(GpuError::OutOfBounds));
    assert_eq!(b.get_mapped_range(Some(8), Some(16)), Ok((8, 16)));
    assert_eq!(b.get_mapped_range(Some(16), Some(8)), Err(GpuError::OverlappingRange));
    assert_eq!(b.get_mapped_range(Some(24), None), Ok((24, 40)));
    assert_eq!(b.get_mapped_range(None, Some(8)), Ok((0, 8)));
    assert!(matches!(b.unmap(None), UnmapPlan::Plain));
    assert_eq!(b.map_state(), MapState::Unmapped);
    assert_eq!(b.begin_map("BOTH"), Err(GpuError::InvalidMapMode));
    assert_eq!(b.complete_map(false), Err(GpuError::MapFailed));
    assert_eq!(b.map_state().as_str(), "unmapped");
}

#[test]
fn unmap_plans() {
    let mut b = GpuBuffer::new(8, 0x2, true);
    assert_eq!(b.size(), 8);
    assert!(matches!(b.unmap(Some(vec![1, 2, 3])), UnmapPlan::MappedWrite { data } if data == vec![1, 2, 3]));
    let mut b = GpuBuffer::new(2, 0x2, true);
    assert!(matches!(b.unmap(Some(vec![1, 2, 3])), UnmapPlan::Plain));
    let mut b = GpuBuffer::new(2, 0x8 | 0x2, true);
    assert!(matches!(b.unmap(Some(vec![1, 2, 3])), UnmapPlan::QueueWrite { .. }));
    let big = GpuBuffer::new(1u64 << 32 | 4, 0, false);
    assert_eq!(big.size(), 4);
}

#[test]
fn feature_lookup_goes_through_flag_names() {
    let depth_clip = 1u64 << 0;
    let timestamp = 1u64 << 1;
    let bc = 1u64 << 25;
    let f = GpuSupportedFeatures { bits: depth_clip | bc };
    assert!(f.has("depth-clip-control"));
    assert!(f.has("texture-compression-bc"));
    assert!(!f.has("timestamp-query"));
    assert!(!f.has("DEPTH_CLIP_CONTROL"));
    assert_eq!(f.size(), 2);
    assert_eq!(adapter_feature_names(&f), vec!["depth-clip-control".to_string(), "texture-compression-bc".to_string()]);
    let g = GpuSupportedFeatures { bits: timestamp };
    assert_eq!(adapter_feature_names(&g), vec!["timestamp-query".to_string()]);
    assert!(has_flag(0b110, Some(0b100)));
    assert!(!has_flag(0b110, Some(0b101)));
    assert!(!has_flag(u64::MAX, None));
    assert_eq!(count_ones(u64::MAX), 64);
    assert_eq!(count_ones(0), 0);
}
