use gpu_bindings::commands::{
    ColorBits, DepthLoadOp, EncoderCommand, LoadOp, RenderCommand, StencilLoadOp, StencilOps, StoreOp,
    TransferCommand,
    ImageLayout, ComputeCommand, BufferRange, IndexFormat, Viewport,
};
use gpu_bindings::descriptors::{RenderPassColorAttachment, RenderPassDepthStencilAttachment, RenderPassDescriptor};
use gpu_bindings::error::GpuError;
use gpu_bindings::session::{EncoderState, GpuCommandEncoder};

fn finished_log(mut encoder: GpuCommandEncoder) -> Vec<EncoderCommand> {
    let mut buffer = encoder.finish().expect("encoder finishes");
    buffer.take_commands().expect("commands are there once")
}

fn render_commands(entry: &EncoderCommand) -> &Vec<RenderCommand> {
    match entry {
        EncoderCommand::RenderPass { commands, .. } => commands,
        other => panic!("expected a render pass, got {:?}", other),
    }
}

#[test]
fn draw_after_pipeline_and_vertex_buffer_records_one_draw() {
    let mut encoder = GpuCommandEncoder::new();
    let setup = gpu_bindings::commands::RenderPassSetup::empty();
    let mut pass = encoder.begin_render_pass(setup).unwrap();
    assert_eq!(pass.set_pipeline(7), Ok(()));
    assert_eq!(pass.set_vertex_buffer(0, 11, None, None), Ok(()));
    assert_eq!(pass.draw(3, None, None, None), Ok(()));
    assert_eq!(pass.end(&mut encoder), Ok(()));
    let log = finished_log(encoder);
    assert_eq!(log.len(), 1);
    let cmds = render_commands(&log[0]);
    let draws: Vec<&RenderCommand> = cmds.iter().filter(|c| matches!(c, RenderCommand::Draw { .. })).collect();
    assert_eq!(draws.len(), 1);
    assert!(matches!(
        draws[0],
        RenderCommand::Draw { vertex_count: 3, instance_count: 1, first_vertex: 0, first_instance: 0 }
    ));
    assert!(matches!(cmds[0], RenderCommand::SetPipeline { pipeline: 7 }));
    assert!(matches!(
        cmds[1],
        RenderCommand::SetVertexBuffer { slot: 0, buffer: 11, range: BufferRange { offset: 0, size: None } }
    ));
}

#[test]
fn clear_color_survives_bit_for_bit() {
    let clear = ColorBits {
        r: 0.25f64.to_bits(),
        g: 0.5f64.to_bits(),
        b: 0.75f64.to_bits(),
        a: 1.0f64.to_bits(),
    };
    let descriptor = RenderPassDescriptor {
        label: None,
        color_attachments: vec![RenderPassColorAttachment {
            clear_value: Some(clear),
            load_op: "clear".to_string(),
            store_op: "store".to_string(),
        }],
        depth_stencil_attachment: None,
    };
    let mut encoder = GpuCommandEncoder::new();
    let mut pass = encoder.begin_render_pass_with(&descriptor, &vec![5], None).unwrap();
    assert_eq!(pass.end(&mut encoder), Ok(()));
    let log = finished_log(encoder);
    match &log[0] {
        EncoderCommand::RenderPass { setup, commands, .. } => {
            assert!(commands.is_empty());
            assert_eq!(setup.color_attachments.len(), 1);
            let a = setup.color_attachments[0];
            assert_eq!(a.view, 5);
            assert_eq!(a.store, StoreOp::Store);
            match a.load {
                LoadOp::Clear { color } => {
                    assert_eq!(color, clear);
                    assert_eq!(f64::from_bits(color.g), 0.5);
                }
                LoadOp::Load => panic!("expected a clear"),
            }
        }
        other => panic!("expected a render pass, got {:?}", other),
    }
}

#[test]
fn descriptor_defaults_and_mismatch() {
    let descriptor = RenderPassDescriptor {
        label: None,
        color_attachments: vec![RenderPassColorAttachment {
            clear_value: None,
            load_op: "load".to_string(),
            store_op: "discard".to_string(),
        }],
        depth_stencil_attachment: Some(RenderPassDepthStencilAttachment {
            depth_clear_value: None,
            depth_load_op: None,
            depth_store_op: None,
            stencil_clear_value: Some(7),
            stencil_load_op: Some("clear".to_string()),
            stencil_store_op: Some("discard".to_string()),
        }),
    };
    let mut encoder = GpuCommandEncoder::new();
    assert_eq!(
        encoder.begin_render_pass_with(&descriptor, &vec![1, 2], Some(3)).err(),
        Some(GpuError::AttachmentMismatch)
    );
    assert_eq!(encoder.begin_render_pass_with(&descriptor, &vec![1], None).err(), Some(GpuError::AttachmentMismatch));
    assert_eq!(encoder.state(), EncoderState::Recording);
    let mut pass = encoder.begin_render_pass_with(&descriptor, &vec![1], Some(3)).unwrap();
    pass.end(&mut encoder).unwrap();
    let log = finished_log(encoder);
    match &log[0] {
        EncoderCommand::RenderPass { setup, .. } => {
            assert_eq!(setup.color_attachments[0].load, LoadOp::Load);
            assert_eq!(setup.color_attachments[0].store, StoreOp::Discard);
            let depth = setup.depth.unwrap();
            assert_eq!(depth.view, 3);
            assert_eq!(depth.load, DepthLoadOp::Clear { value: 1.0f64.to_bits() });
            assert_eq!(depth.store, StoreOp::Store);
            assert_eq!(
                depth.stencil,
                Some(StencilOps { load: StencilLoadOp::Clear { value: 7 }, store: StoreOp::Discard })
            );
        }
        other => panic!("expected a render pass, got {:?}", other),
    }
}

#[test]
fn state_accumulates_in_call_order() {
    let mut encoder = GpuCommandEncoder::new();
    let mut pass = encoder.begin_render_pass(gpu_bindings::commands::RenderPassSetup::empty()).unwrap();
    pass.set_pipeline(1).unwrap();
    pass.set_bind_group(0, 40, Some(vec![256])).unwrap();
    pass.draw(3, Some(2), Some(1), None).unwrap();
    pass.set_pipeline(2).unwrap();
    pass.draw(6, None, None, None).unwrap();
    pass.end(&mut encoder).unwrap();
    let log = finished_log(encoder);
    let cmds = render_commands(&log[0]);
    assert_eq!(cmds.len(), 5);
    assert!(matches!(cmds[0], RenderCommand::SetPipeline { pipeline: 1 }));
    assert!(matches!(&cmds[1], RenderCommand::SetBindGroup { index: 0, group: 40, offsets: Some(o) } if o == &vec![256]));
    assert!(matches!(cmds[2], RenderCommand::Draw { vertex_count: 3, instance_count: 2, first_vertex: 1, first_instance: 0 }));
    assert!(matches!(cmds[3], RenderCommand::SetPipeline { pipeline: 2 }));
    assert!(matches!(cmds[4], RenderCommand::Draw { vertex_count: 6, instance_count: 1, .. }));
}

#[test]
fn ended_pass_reports_session_ended() {
    let mut encoder = GpuCommandEncoder::new();
    let mut pass = encoder.begin_render_pass(gpu_bindings::commands::RenderPassSetup::empty()).unwrap();
    pass.set_pipeline(1).unwrap();
    pass.end(&mut encoder).unwrap();
    assert!(!pass.is_open());
    assert_eq!(pass.set_pipeline(2), Err(GpuError::SessionEnded));
    assert_eq!(pass.set_bind_group(0, 1, None), Err(GpuError::SessionEnded));
    assert_eq!(pass.set_vertex_buffer(0, 1, None, None), Err(GpuError::SessionEnded));
    assert_eq!(pass.set_index_buffer(1, "bogus", None, None), Err(GpuError::SessionEnded));
    assert_eq!(pass.draw(3, None, None, None), Err(GpuError::SessionEnded));
    assert_eq!(pass.draw_indexed(3, None, None, None, None), Err(GpuError::SessionEnded));
    assert_eq!(pass.draw_indirect(1, 0), Err(GpuError::SessionEnded));
    assert_eq!(pass.draw_indexed_indirect(1, 0), Err(GpuError::SessionEnded));
    assert_eq!(pass.execute_bundles(vec![1]), Err(GpuError::SessionEnded));
    assert_eq!(pass.set_scissor_rect(0, 0, 1, 1), Err(GpuError::SessionEnded));
    assert_eq!(pass.set_blend_constant(vec![]), Err(GpuError::SessionEnded));
    assert_eq!(pass.set_stencil_reference(1), Err(GpuError::SessionEnded));
    assert_eq!(pass.push_debug_group("g".to_string()), Err(GpuError::SessionEnded));
    assert_eq!(pass.pop_debug_group(), Err(GpuError::SessionEnded));
    assert_eq!(pass.insert_debug_marker("m".to_string()), Err(GpuError::SessionEnded));
    let log = finished_log(encoder);
    assert_eq!(render_commands(&log[0]).len(), 1);

    let mut encoder = GpuCommandEncoder::new();
    let mut compute = encoder.begin_compute_pass().unwrap();
    compute.end(&mut encoder).unwrap();
    assert_eq!(compute.set_pipeline(1), Err(GpuError::SessionEnded));
    assert_eq!(compute.dispatch_workgroups(1, None, None), Err(GpuError::SessionEnded));
    assert_eq!(compute.dispatch_workgroups_indirect(1, 0), Err(GpuError::SessionEnded));
    assert_eq!(compute.insert_debug_marker("m".to_string()), Err(GpuError::SessionEnded));
}

#[test]
fn end_twice_finalizes_once() {
    let mut encoder = GpuCommandEncoder::new();
    let mut pass = encoder.begin_render_pass(gpu_bindings::commands::RenderPassSetup::empty()).unwrap();
    pass.draw(3, None, None, None).unwrap();
    assert_eq!(pass.end(&mut encoder), Ok(()));
    assert_eq!(pass.end(&mut encoder), Ok(()));
    assert_eq!(encoder.state(), EncoderState::Recording);
    let log = finished_log(encoder);
    assert_eq!(log.len(), 1);
    assert!(matches!(log[0], EncoderCommand::RenderPass { id: 0, .. }));
}

#[test]
fn release_without_end_finalizes_once() {
    let mut encoder = GpuCommandEncoder::new();
    let mut pass = encoder.begin_render_pass(gpu_bindings::commands::RenderPassSetup::empty()).unwrap();
    pass.draw(3, None, None, None).unwrap();
    pass.release(&mut encoder);
    assert_eq!(encoder.state(), EncoderState::Recording);
    let mut compute = encoder.begin_compute_pass().unwrap();
    compute.dispatch_workgroups(4, Some(2), None).unwrap();
    compute.end(&mut encoder).unwrap();
    compute.release(&mut encoder);
    let log = finished_log(encoder);
    assert_eq!(log.len(), 2);
    assert_eq!(render_commands(&log[0]).len(), 1);
    match &log[1] {
        EncoderCommand::ComputePass { id, compute_commands } => {
            assert_eq!(*id, 1);
            assert_eq!(compute_commands.len(), 1);
            assert!(matches!(compute_commands[0], ComputeCommand::Dispatch { x: 4, y: 2, z: 1 }));
        }
        other => panic!("expected a compute pass, got {:?}", other),
    }
}

#[test]
fn second_pass_while_open_is_refused() {
    let mut encoder = GpuCommandEncoder::new();
    let mut pass = encoder.begin_render_pass(gpu_bindings::commands::RenderPassSetup::empty()).unwrap();
    assert_eq!(encoder.begin_render_pass(gpu_bindings::commands::RenderPassSetup::empty()).err(), Some(GpuError::PassOpen));
    assert_eq!(encoder.begin_compute_pass().err(), Some(GpuError::PassOpen));
    assert_eq!(encoder.copy_buffer_to_buffer(1, 0, 2, 0, 4), Err(GpuError::PassOpen));
    assert_eq!(encoder.finish().err(), Some(GpuError::PassOpen));
    assert_eq!(encoder.state(), EncoderState::InPass { id: 0 });
    pass.end(&mut encoder).unwrap();
    assert!(encoder.begin_compute_pass().is_ok());
}

#[test]
fn finished_encoder_refuses_everything() {
    let mut encoder = GpuCommandEncoder::new();
    let mut buffer = encoder.finish().unwrap();
    assert!(!buffer.is_submitted());
    assert_eq!(buffer.take_commands().map(|v| v.len()), Some(0));
    assert!(buffer.is_submitted());
    assert!(buffer.take_commands().is_none());
    assert_eq!(encoder.finish().err(), Some(GpuError::EncoderFinished));
    assert_eq!(encoder.begin_render_pass(gpu_bindings::commands::RenderPassSetup::empty()).err(), Some(GpuError::EncoderFinished));
    assert_eq!(encoder.begin_compute_pass().err(), Some(GpuError::EncoderFinished));
    assert_eq!(encoder.write_timestamp(1, 0), Err(GpuError::EncoderFinished));
    assert_eq!(
        encoder.compute_pass(1, vec![], 1, None, None),
        Err(GpuError::EncoderFinished)
    );
}

#[test]
fn foreign_encoder_cannot_end_a_pass() {
    let mut a = GpuCommandEncoder::new();
    let mut b = GpuCommandEncoder::new();
    let mut pass = a.begin_render_pass(gpu_bindings::commands::RenderPassSetup::empty()).unwrap();
    assert_eq!(pass.end(&mut b), Err(GpuError::ForeignEncoder));
    assert!(pass.is_open());
    assert_eq!(pass.end(&mut a), Ok(()));
}

#[test]
fn recording_errors() {
    let mut encoder = GpuCommandEncoder::new();
    let mut pass = encoder.begin_render_pass(gpu_bindings::commands::RenderPassSetup::empty()).unwrap();
    assert_eq!(pass.set_index_buffer(1, "uint8", None, None), Err(GpuError::InvalidIndexFormat));
    assert_eq!(pass.set_blend_constant(vec![0, 0, 0]), Err(GpuError::BlendConstantTooShort));
    assert_eq!(pass.draw(u32::MAX, None, Some(1), None), Err(GpuError::RangeOverflow));
    assert_eq!(pass.draw_indexed(3, Some(u32::MAX), None, None, Some(1)), Err(GpuError::RangeOverflow));
    assert_eq!(pass.set_vertex_buffer(0, 1, Some(u64::MAX), Some(1)), Err(GpuError::RangeOverflow));
    assert_eq!(pass.set_index_buffer(1, "uint32", Some(8), Some(16)), Ok(()));
    assert_eq!(pass.set_vertex_buffer(2, 9, Some(16), None), Ok(()));
    assert_eq!(pass.set_blend_constant(vec![1, 2, 3, 4, 5]), Ok(()));
    let vp = Viewport { x: 0, y: 0, width: 1.0f32.to_bits(), height: 1.0f32.to_bits(), min_depth: 0, max_depth: 1.0f32.to_bits() };
    assert_eq!(pass.set_viewport(vp), Ok(()));
    pass.end(&mut encoder).unwrap();
    let log = finished_log(encoder);
    let cmds = render_commands(&log[0]);
    assert_eq!(cmds.len(), 4);
    assert!(matches!(
        cmds[0],
        RenderCommand::SetIndexBuffer { buffer: 1, format: IndexFormat::Uint32, range: BufferRange { offset: 8, size: Some(16) } }
    ));
    assert!(matches!(cmds[1], RenderCommand::SetVertexBuffer { slot: 2, buffer: 9, range: BufferRange { offset: 16, size: None } }));
    assert!(matches!(cmds[2], RenderCommand::SetBlendConstant { color: ColorBits { r: 1, g: 2, b: 3, a: 4 } }));
    assert!(matches!(cmds[3], RenderCommand::SetViewport { .. }));
}

#[test]
fn transfers_are_logged_in_order() {
    let mut encoder = GpuCommandEncoder::new();
    encoder.copy_buffer_to_buffer(1, 4, 2, 8, 16).unwrap();
    let layout = ImageLayout { offset: 0, bytes_per_row: 256, rows_per_image: None };
    encoder.copy_buffer_to_texture(1, layout, 3, None, Some(2), None, None, 4, 4, None).unwrap();
    encoder.copy_texture_to_buffer(3, Some(1), None, None, None, 1, layout, 4, 4, Some(2)).unwrap();
    encoder.write_timestamp(5, 1).unwrap();
    assert_eq!(encoder.resolve_query_set(5, u32::MAX, 2, 1, 0), Err(GpuError::RangeOverflow));
    encoder.resolve_query_set(5, 0, 2, 1, 256).unwrap();
    let log = finished_log(encoder);
    assert_eq!(log.len(), 5);
    match &log[1] {
        EncoderCommand::Transfer { command: TransferCommand::CopyBufferToTexture { origin, extent, .. } } => {
            assert_eq!((origin.mip_level, origin.x, origin.y, origin.z), (0, 2, 0, 0));
            assert_eq!(extent.depth_or_array_layers, 1);
        }
        other => panic!("unexpected {:?}", other),
    }
    match &log[2] {
        EncoderCommand::Transfer { command: TransferCommand::CopyTextureToBuffer { origin, extent, .. } } => {
            assert_eq!(origin.mip_level, 1);
            assert_eq!(extent.depth_or_array_layers, 2);
        }
        other => panic!("unexpected {:?}", other),
    }
    assert!(matches!(
        log[4],
        EncoderCommand::Transfer { command: TransferCommand::ResolveQuerySet { first_query: 0, query_count: 2, destination_offset: 256, .. } }
    ));
}

#[test]
fn inline_render_pass_records_whole_pass() {
    let mut encoder = GpuCommandEncoder::new();
    let clear = vec![vec![1, 2, 3, 4], vec![9]];
    encoder
        .render_pass(7, vec![20, 21], 3, vec![30, 31], Some(clear), Some(vec![40]), Some(50), None, Some(vec![60]))
        .unwrap();
    encoder.compute_pass(8, vec![41, 42], 4, None, Some(3)).unwrap();
    let log = finished_log(encoder);
    match &log[0] {
        EncoderCommand::RenderPass { id, setup, commands } => {
            assert_eq!(*id, 0);
            assert_eq!(setup.color_attachments.len(), 2);
            assert_eq!(setup.color_attachments[0].load, LoadOp::Clear { color: ColorBits { r: 1, g: 2, b: 3, a: 4 } });
            assert_eq!(setup.color_attachments[0].resolve_target, Some(60));
            assert_eq!(setup.color_attachments[1].load, LoadOp::Clear { color: ColorBits { r: 0, g: 0, b: 0, a: 1.0f64.to_bits() } });
            assert_eq!(setup.color_attachments[1].resolve_target, None);
            assert_eq!(setup.depth.unwrap().load, DepthLoadOp::Clear { value: 1.0f64.to_bits() });
            assert_eq!(setup.depth.unwrap().stencil, None);
            assert_eq!(commands.len(), 5);
            assert!(matches!(commands[0], RenderCommand::SetPipeline { pipeline: 7 }));
            assert!(matches!(commands[1], RenderCommand::SetBindGroup { index: 0, group: 40, offsets: None }));
            assert!(matches!(commands[2], RenderCommand::SetVertexBuffer { slot: 0, buffer: 20, .. }));
            assert!(matches!(commands[3], RenderCommand::SetVertexBuffer { slot: 1, buffer: 21, .. }));
            assert!(matches!(commands[4], RenderCommand::Draw { vertex_count: 3, instance_count: 1, .. }));
        }
        other => panic!("unexpected {:?}", other),
    }
    match &log[1] {
        EncoderCommand::ComputePass { id, compute_commands } => {
            assert_eq!(*id, 1);
            assert_eq!(compute_commands.len(), 4);
            assert!(matches!(compute_commands[2], ComputeCommand::SetBindGroup { index: 1, group: 42, .. }));
            assert!(matches!(compute_commands[3], ComputeCommand::Dispatch { x: 4, y: 1, z: 3 }));
        }
        other => panic!("unexpected {:?}", other),
    }
}

#[test]
fn inline_indexed_and_indirect_passes() {
    let mut encoder = GpuCommandEncoder::new();
    encoder.render_pass_indexed(1, vec![], 2, "uint32", 6, vec![3], None, None, None, None, None).unwrap();
    encoder.render_pass_indexed(1, vec![], 2, "weird", 6, vec![3], None, None, None, None, None).unwrap();
    encoder.render_pass_indirect(1, vec![], 9, 16, vec![3], None, None, None, None, None).unwrap();
    encoder.render_pass_indexed_indirect(1, vec![], 2, "uint16", 9, 32, vec![3], None, None, None, None, None).unwrap();
    encoder.render_pass_bundles(vec![70, 71], vec![3], None).unwrap();
    encoder.compute_pass_indirect(1, vec![], 9, 8).unwrap();
    let log = finished_log(encoder);
    assert_eq!(log.len(), 6);
    let first = render_commands(&log[0]);
    assert!(matches!(first[1], RenderCommand::SetIndexBuffer { buffer: 2, format: IndexFormat::Uint32, .. }));
    assert!(matches!(first[2], RenderCommand::DrawIndexed { index_count: 6, instance_count: 1, .. }));
    let second = render_commands(&log[1]);
    assert!(matches!(second[1], RenderCommand::SetIndexBuffer { format: IndexFormat::Uint16, .. }));
    assert!(matches!(render_commands(&log[2])[1], RenderCommand::DrawIndirect { buffer: 9, offset: 16 }));
    assert!(matches!(render_commands(&log[3])[2], RenderCommand::DrawIndexedIndirect { buffer: 9, offset: 32 }));
    let bundles = render_commands(&log[4]);
    assert_eq!(bundles.len(), 1);
    assert!(matches!(&bundles[0], RenderCommand::ExecuteBundles { bundles } if bundles == &vec![70, 71]));
    match &log[5] {
        EncoderCommand::ComputePass { compute_commands, .. } => {
            assert!(matches!(compute_commands[1], ComputeCommand::DispatchIndirect { buffer: 9, offset: 8 }));
        }
        other => panic!("unexpected {:?}", other),
    }
}
