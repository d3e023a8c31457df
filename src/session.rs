use vstd::prelude::*;
use crate::commands::{
    buffer_range, entry_pass_id, spec_buffer_range, ColorBits, ComputeCommand, EncoderCommand,
    EncoderEntry, Extent, ImageLayout, IndexFormat, RenderCommand, RenderPassSetup, ScissorRect, SetupView,
    TextureOrigin, TransferCommand, Viewport,
};
use crate::tokens::{index_format_of, parse_index_format};
use crate::error::GpuError;

verus! {

/// Where a command encoder stands: taking commands, lending its recording to
/// the open pass `id`, or finished.
#[derive(Clone, Copy, Debug, PartialEq, Eq, Structural)]
pub enum EncoderState {
    Recording,
    InPass { id: u64 },
    Finished,
}

/// A command encoder as a mathematical value.
pub struct EncoderView {
    pub state: EncoderState,
    pub log: Seq<EncoderEntry>,
}

impl EncoderView {
    /// Each pass entry sits at the position given by its identifier, and an
    /// open pass is named by the position its entry will take.
    pub open spec fn wf(self) -> bool {
        &&& self.log.len() <= u64::MAX
        &&& forall|i: int|
            0 <= i < self.log.len() && #[trigger] entry_pass_id(self.log[i]).is_some()
                ==> entry_pass_id(self.log[i]).unwrap() == i
        &&& match self.state {
            EncoderState::InPass { id } => id == self.log.len(),
            _ => true,
        }
    }
}

/// Records commands, one pass at a time, into a command list.
#[derive(Debug)]
pub struct GpuCommandEncoder {
    pub(crate) state: EncoderState,
    pub(crate) log: Vec<EncoderCommand>,
}

impl View for GpuCommandEncoder {
    type V = EncoderView;

    closed spec fn view(&self) -> EncoderView {
        EncoderView { state: self.state, log: self.log@.map_values(|c: EncoderCommand| c@) }
    }
}

/// A render pass handle as a mathematical value.
pub struct RenderPassView {
    pub id: u64,
    pub open: bool,
    pub setup: SetupView,
    pub commands: Seq<RenderCommand>,
}

/// A render pass handle: records commands while open, and hands them to its
/// encoder exactly once, when it ends or is released.
#[derive(Debug)]
pub struct GpuRenderPassEncoder {
    pub(crate) id: u64,
    pub(crate) open: bool,
    pub(crate) setup: RenderPassSetup,
    pub(crate) commands: Vec<RenderCommand>,
}

impl View for GpuRenderPassEncoder {
    type V = RenderPassView;

    closed spec fn view(&self) -> RenderPassView {
        RenderPassView { id: self.id, open: self.open, setup: self.setup@, commands: self.commands@ }
    }
}

/// Whether beginning a pass on the encoder succeeds, and the pass's identifier.
pub open spec fn begin_outcome(e: EncoderView) -> Result<u64, GpuError> {
    match e.state {
        EncoderState::Recording => Ok(e.log.len() as u64),
        EncoderState::InPass { .. } => Err(GpuError::PassOpen),
        EncoderState::Finished => Err(GpuError::EncoderFinished),
    }
}

/// The encoder after an attempt to begin a pass.
pub open spec fn after_begin(e: EncoderView) -> EncoderView {
    match begin_outcome(e) {
        Ok(id) => EncoderView { state: EncoderState::InPass { id }, log: e.log },
        Err(_) => e,
    }
}

/// A render pass handle that has just been opened.
pub open spec fn opened_render(id: u64, setup: SetupView) -> RenderPassView {
    RenderPassView { id, open: true, setup, commands: Seq::empty() }
}

/// The handle after one more command: an open pass appends it, an ended one
/// stays as it is.
pub open spec fn record_render(p: RenderPassView, c: RenderCommand) -> RenderPassView {
    if p.open {
        RenderPassView { commands: p.commands.push(c), ..p }
    } else {
        p
    }
}

/// What a recording operation reports: `SessionEnded` on an ended pass,
/// otherwise the refusal of the command, if any.
pub open spec fn render_step(p: RenderPassView, c: Result<RenderCommand, GpuError>) -> Result<(), GpuError> {
    if !p.open {
        Err(GpuError::SessionEnded)
    } else {
        match c {
            Ok(_) => Ok(()),
            Err(e) => Err(e),
        }
    }
}

/// The handle after a recording operation.
pub open spec fn render_after(p: RenderPassView, c: Result<RenderCommand, GpuError>) -> RenderPassView {
    match c {
        Ok(cmd) => record_render(p, cmd),
        Err(_) => p,
    }
}

/// Whether ending the pass `p` on the encoder `e` is accepted. Ending an
/// ended pass is accepted and does nothing.
pub open spec fn end_outcome(p: RenderPassView, e: EncoderView) -> Result<(), GpuError> {
    if !p.open || e.state == (EncoderState::InPass { id: p.id }) {
        Ok(())
    } else {
        Err(GpuError::ForeignEncoder)
    }
}

/// The log entry that finalizes an open render pass.
pub open spec fn render_entry(p: RenderPassView) -> EncoderEntry {
    EncoderEntry::RenderPass { id: p.id, setup: p.setup, commands: p.commands }
}

/// The encoder after ending the pass `p`: an open pass of this encoder is
/// appended to the log and the encoder takes commands again.
pub open spec fn encoder_after_render_end(p: RenderPassView, e: EncoderView) -> EncoderView {
    if p.open && e.state == (EncoderState::InPass { id: p.id }) {
        EncoderView { state: EncoderState::Recording, log: e.log.push(render_entry(p)) }
    } else {
        e
    }
}

/// The handle after ending it: once its pass is finalized it is closed and empty.
pub open spec fn pass_after_render_end(p: RenderPassView, e: EncoderView) -> RenderPassView {
    if p.open && e.state == (EncoderState::InPass { id: p.id }) {
        RenderPassView {
            open: false,
            setup: SetupView { color_attachments: Seq::empty(), depth: None },
            commands: Seq::empty(),
            ..p
        }
    } else {
        p
    }
}

proof fn lemma_view_push(log: Seq<EncoderCommand>, c: EncoderCommand)
    ensures
        log.push(c).map_values(|x: EncoderCommand| x@) == log.map_values(|x: EncoderCommand| x@).push(c@),
{
    assert(log.push(c).map_values(|x: EncoderCommand| x@) =~= log.map_values(|x: EncoderCommand| x@).push(c@));
}

impl GpuCommandEncoder {
    /// An encoder with nothing recorded.
    pub fn new() -> (e: GpuCommandEncoder)
        ensures
            e@ == (EncoderView { state: EncoderState::Recording, log: Seq::empty() }),
            e@.wf(),
    {
        let e = GpuCommandEncoder { state: EncoderState::Recording, log: Vec::new() };
        assert(e@.log =~= Seq::empty());
        e
    }

    pub fn state(&self) -> (s: EncoderState)
        ensures
            s == self@.state,
    {
        self.state
    }

    /// Begins a render pass drawing into the given targets.
    pub fn begin_render_pass(&mut self, setup: RenderPassSetup) -> (r: Result<GpuRenderPassEncoder, GpuError>)
        requires
            old(self)@.wf(),
        ensures
            final(self)@ == after_begin(old(self)@),
            final(self)@.wf(),
            match begin_outcome(old(self)@) {
                Ok(id) => r.is_ok() && r.unwrap()@ == opened_render(id, setup@),
                Err(err) => r == Err::<GpuRenderPassEncoder, GpuError>(err),
            },
    {
        match self.state {
            EncoderState::Recording => {
                let id = self.log.len() as u64;
                self.state = EncoderState::InPass { id };
                Ok(GpuRenderPassEncoder { id, open: true, setup, commands: Vec::new() })
            },
            EncoderState::InPass { .. } => Err(GpuError::PassOpen),
            EncoderState::Finished => Err(GpuError::EncoderFinished),
        }
    }
}

impl GpuRenderPassEncoder {
    pub fn is_open(&self) -> (b: bool)
        ensures
            b == self@.open,
    {
        self.open
    }

    /// Appends a command while the pass is open; an ended pass reports
    /// `SessionEnded` before anything else, and a refused command changes nothing.
    fn record(&mut self, c: Result<RenderCommand, GpuError>) -> (r: Result<(), GpuError>)
        ensures
            r == render_step(old(self)@, c),
            final(self)@ == render_after(old(self)@, c),
    {
        if !self.open {
            return Err(GpuError::SessionEnded);
        }
        match c {
            Ok(cmd) => {
                self.commands.push(cmd);
                Ok(())
            },
            Err(e) => Err(e),
        }
    }

    /// Finalizes the pass into its encoder, which then takes commands again.
    /// Ending a pass that has ended does nothing.
    pub fn end(&mut self, encoder: &mut GpuCommandEncoder) -> (r: Result<(), GpuError>)
        requires
            old(encoder)@.wf(),
        ensures
            r == end_outcome(old(self)@, old(encoder)@),
            final(self)@ == pass_after_render_end(old(self)@, old(encoder)@),
            final(encoder)@ == encoder_after_render_end(old(self)@, old(encoder)@),
            final(encoder)@.wf(),
    {
        if !self.open {
            return Ok(());
        }
        let is_parent = match encoder.state {
            EncoderState::InPass { id } => id == self.id,
            _ => false,
        };
        if !is_parent {
            return Err(GpuError::ForeignEncoder);
        }
        let mut commands: Vec<RenderCommand> = Vec::new();
        core::mem::swap(&mut commands, &mut self.commands);
        let mut setup = RenderPassSetup::empty();
        core::mem::swap(&mut setup, &mut self.setup);
        let entry = EncoderCommand::RenderPass { id: self.id, setup, commands };
        proof {
            lemma_view_push(encoder.log@, entry);
        }
        encoder.log.push(entry);
        // The length is a usize, so the log stays within 64-bit identifiers.
        let _len = encoder.log.len();
        encoder.state = EncoderState::Recording;
        self.open = false;
        assert(self@.commands =~= Seq::empty());
        Ok(())
    }

    /// The cleanup path for a handle that is dropped: finalizes the pass
    /// exactly as `end` would, and does nothing if it has ended.
    pub fn release(self, encoder: &mut GpuCommandEncoder)
        requires
            old(encoder)@.wf(),
        ensures
            final(encoder)@ == encoder_after_render_end(self@, old(encoder)@),
            final(encoder)@.wf(),
    {
        let mut pass = self;
        let _ = pass.end(encoder);
    }

}

/// The draw command for the given counts, or `RangeOverflow` when the last
/// vertex or instance index does not fit in 32 bits.
pub open spec fn draw_command(vertex_count: u32, instance_count: u32, first_vertex: u32, first_instance: u32) -> Result<RenderCommand, GpuError> {
    if first_vertex + vertex_count <= u32::MAX && first_instance + instance_count <= u32::MAX {
        Ok(RenderCommand::Draw { vertex_count, instance_count, first_vertex, first_instance })
    } else {
        Err(GpuError::RangeOverflow)
    }
}

/// The indexed draw command for the given counts, or `RangeOverflow` when the
/// last index or instance index does not fit in 32 bits.
pub open spec fn draw_indexed_command(
    index_count: u32,
    instance_count: u32,
    first_index: u32,
    base_vertex: i32,
    first_instance: u32,
) -> Result<RenderCommand, GpuError> {
    if first_index + index_count <= u32::MAX && first_instance + instance_count <= u32::MAX {
        Ok(RenderCommand::DrawIndexed { index_count, instance_count, first_index, base_vertex, first_instance })
    } else {
        Err(GpuError::RangeOverflow)
    }
}

/// An optional argument with its default.
pub open spec fn or_default<T>(o: Option<T>, d: T) -> T {
    match o {
        Some(v) => v,
        None => d,
    }
}

fn u32_or(o: Option<u32>, d: u32) -> (r: u32)
    ensures
        r == or_default(o, d),
{
    match o {
        Some(v) => v,
        None => d,
    }
}

impl GpuRenderPassEncoder {
    pub fn set_pipeline(&mut self, pipeline: u64) -> (r: Result<(), GpuError>)
        ensures
            r == render_step(old(self)@, Ok(RenderCommand::SetPipeline { pipeline })),
            final(self)@ == render_after(old(self)@, Ok(RenderCommand::SetPipeline { pipeline })),
    {
        self.record(Ok(RenderCommand::SetPipeline { pipeline }))
    }

    pub fn set_bind_group(&mut self, index: u32, bind_group: u64, dynamic_offsets: Option<Vec<u32>>) -> (r: Result<(), GpuError>)
        ensures
            ({
                let c = RenderCommand::SetBindGroup { index, group: bind_group, offsets: dynamic_offsets };
                &&& r == render_step(old(self)@, Ok(c))
                &&& final(self)@ == render_after(old(self)@, Ok(c))
            }),
    {
        self.record(Ok(RenderCommand::SetBindGroup { index, group: bind_group, offsets: dynamic_offsets }))
    }

    /// Binds a vertex buffer to a slot: the whole buffer, the part from
    /// `offset` on, or `size` bytes from `offset`.
    pub fn set_vertex_buffer(&mut self, slot: u32, buffer: u64, offset: Option<u64>, size: Option<u64>) -> (r: Result<(), GpuError>)
        ensures
            ({
                let c = match spec_buffer_range(offset, size) {
                    Some(range) => Ok(RenderCommand::SetVertexBuffer { slot, buffer, range }),
                    None => Err(GpuError::RangeOverflow),
                };
                &&& r == render_step(old(self)@, c)
                &&& final(self)@ == render_after(old(self)@, c)
            }),
    {
        let c = match buffer_range(offset, size) {
            Some(range) => Ok(RenderCommand::SetVertexBuffer { slot, buffer, range }),
            None => Err(GpuError::RangeOverflow),
        };
        self.record(c)
    }

    /// Binds the index buffer; the format is `uint16` or `uint32`.
    pub fn set_index_buffer(&mut self, buffer: u64, index_format: &str, offset: Option<u64>, size: Option<u64>) -> (r: Result<(), GpuError>)
        ensures
            ({
                let c = match index_format_of(index_format@) {
                    None => Err(GpuError::InvalidIndexFormat),
                    Some(format) => match spec_buffer_range(offset, size) {
                        Some(range) => Ok(RenderCommand::SetIndexBuffer { buffer, format, range }),
                        None => Err(GpuError::RangeOverflow),
                    },
                };
                &&& r == render_step(old(self)@, c)
                &&& final(self)@ == render_after(old(self)@, c)
            }),
    {
        let c = match parse_index_format(index_format) {
            None => Err(GpuError::InvalidIndexFormat),
            Some(format) => match buffer_range(offset, size) {
                Some(range) => Ok(RenderCommand::SetIndexBuffer { buffer, format, range }),
                None => Err(GpuError::RangeOverflow),
            },
        };
        self.record(c)
    }

    /// Binds the index buffer with an index format already decided.
    pub fn set_index_buffer_with_format(&mut self, buffer: u64, format: IndexFormat, offset: Option<u64>, size: Option<u64>) -> (r: Result<(), GpuError>)
        ensures
            ({
                let c = match spec_buffer_range(offset, size) {
                    Some(range) => Ok(RenderCommand::SetIndexBuffer { buffer, format, range }),
                    None => Err(GpuError::RangeOverflow),
                };
                &&& r == render_step(old(self)@, c)
                &&& final(self)@ == render_after(old(self)@, c)
            }),
    {
        let c = match buffer_range(offset, size) {
            Some(range) => Ok(RenderCommand::SetIndexBuffer { buffer, format, range }),
            None => Err(GpuError::RangeOverflow),
        };
        self.record(c)
    }

    /// Draws `vertex_count` vertices; one instance, vertex 0 and instance 0
    /// unless given.
    pub fn draw(
        &mut self,
        vertex_count: u32,
        instance_count: Option<u32>,
        first_vertex: Option<u32>,
        first_instance: Option<u32>,
    ) -> (r: Result<(), GpuError>)
        ensures
            ({
                let c = draw_command(
                    vertex_count,
                    or_default(instance_count, 1),
                    or_default(first_vertex, 0),
                    or_default(first_instance, 0),
                );
                &&& r == render_step(old(self)@, c)
                &&& final(self)@ == render_after(old(self)@, c)
            }),
    {
        let instances = u32_or(instance_count, 1);
        let first_v = u32_or(first_vertex, 0);
        let first_i = u32_or(first_instance, 0);
        let c = if vertex_count <= u32::MAX - first_v && instances <= u32::MAX - first_i {
            Ok(RenderCommand::Draw { vertex_count, instance_count: instances, first_vertex: first_v, first_instance: first_i })
        } else {
            Err(GpuError::RangeOverflow)
        };
        self.record(c)
    }

    /// Draws `index_count` indices; one instance, index 0, base vertex 0 and
    /// instance 0 unless given.
    pub fn draw_indexed(
        &mut self,
        index_count: u32,
        instance_count: Option<u32>,
        first_index: Option<u32>,
        base_vertex: Option<i32>,
        first_instance: Option<u32>,
    ) -> (r: Result<(), GpuError>)
        ensures
            ({
                let c = draw_indexed_command(
                    index_count,
                    or_default(instance_count, 1),
                    or_default(first_index, 0),
                    or_default(base_vertex, 0),
                    or_default(first_instance, 0),
                );
                &&& r == render_step(old(self)@, c)
                &&& final(self)@ == render_after(old(self)@, c)
            }),
    {
        let instances = u32_or(instance_count, 1);
        let first_x = u32_or(first_index, 0);
        let base = match base_vertex {
            Some(v) => v,
            None => 0,
        };
        let first_i = u32_or(first_instance, 0);
        let c = if index_count <= u32::MAX - first_x && instances <= u32::MAX - first_i {
            Ok(RenderCommand::DrawIndexed {
                index_count,
                instance_count: instances,
                first_index: first_x,
                base_vertex: base,
                first_instance: first_i,
            })
        } else {
            Err(GpuError::RangeOverflow)
        };
        self.record(c)
    }

    pub fn draw_indirect(&mut self, indirect_buffer: u64, indirect_offset: u64) -> (r: Result<(), GpuError>)
        ensures
            ({
                let c = RenderCommand::DrawIndirect { buffer: indirect_buffer, offset: indirect_offset };
                &&& r == render_step(old(self)@, Ok(c))
                &&& final(self)@ == render_after(old(self)@, Ok(c))
            }),
    {
        self.record(Ok(RenderCommand::DrawIndirect { buffer: indirect_buffer, offset: indirect_offset }))
    }

    pub fn draw_indexed_indirect(&mut self, indirect_buffer: u64, indirect_offset: u64) -> (r: Result<(), GpuError>)
        ensures
            ({
                let c = RenderCommand::DrawIndexedIndirect { buffer: indirect_buffer, offset: indirect_offset };
                &&& r == render_step(old(self)@, Ok(c))
                &&& final(self)@ == render_after(old(self)@, Ok(c))
            }),
    {
        self.record(Ok(RenderCommand::DrawIndexedIndirect { buffer: indirect_buffer, offset: indirect_offset }))
    }

    pub fn execute_bundles(&mut self, bundles: Vec<u64>) -> (r: Result<(), GpuError>)
        ensures
            r == render_step(old(self)@, Ok(RenderCommand::ExecuteBundles { bundles })),
            final(self)@ == render_after(old(self)@, Ok(RenderCommand::ExecuteBundles { bundles })),
    {
        self.record(Ok(RenderCommand::ExecuteBundles { bundles }))
    }

    pub fn set_viewport(&mut self, viewport: Viewport) -> (r: Result<(), GpuError>)
        ensures
            r == render_step(old(self)@, Ok(RenderCommand::SetViewport { viewport })),
            final(self)@ == render_after(old(self)@, Ok(RenderCommand::SetViewport { viewport })),
    {
        self.record(Ok(RenderCommand::SetViewport { viewport }))
    }

    pub fn set_scissor_rect(&mut self, x: u32, y: u32, width: u32, height: u32) -> (r: Result<(), GpuError>)
        ensures
            ({
                let c = RenderCommand::SetScissorRect { rect: ScissorRect { x, y, width, height } };
                &&& r == render_step(old(self)@, Ok(c))
                &&& final(self)@ == render_after(old(self)@, Ok(c))
            }),
    {
        self.record(Ok(RenderCommand::SetScissorRect { rect: ScissorRect { x, y, width, height } }))
    }

    /// Sets the blend constant from its first four components (red, green,
    /// blue, alpha); fewer than four are refused.
    pub fn set_blend_constant(&mut self, color: Vec<u64>) -> (r: Result<(), GpuError>)
        ensures
            ({
                let c = if color@.len() < 4 {
                    Err(GpuError::BlendConstantTooShort)
                } else {
                    Ok(RenderCommand::SetBlendConstant {
                        color: ColorBits { r: color@[0], g: color@[1], b: color@[2], a: color@[3] },
                    })
                };
                &&& r == render_step(old(self)@, c)
                &&& final(self)@ == render_after(old(self)@, c)
            }),
    {
        let c = if color.len() < 4 {
            Err(GpuError::BlendConstantTooShort)
        } else {
            Ok(RenderCommand::SetBlendConstant {
                color: ColorBits { r: color[0], g: color[1], b: color[2], a: color[3] },
            })
        };
        self.record(c)
    }

    pub fn set_stencil_reference(&mut self, reference: u32) -> (r: Result<(), GpuError>)
        ensures
            r == render_step(old(self)@, Ok(RenderCommand::SetStencilReference { reference })),
            final(self)@ == render_after(old(self)@, Ok(RenderCommand::SetStencilReference { reference })),
    {
        self.record(Ok(RenderCommand::SetStencilReference { reference }))
    }

    pub fn push_debug_group(&mut self, label: String) -> (r: Result<(), GpuError>)
        ensures
            r == render_step(old(self)@, Ok(RenderCommand::PushDebugGroup { label })),
            final(self)@ == render_after(old(self)@, Ok(RenderCommand::PushDebugGroup { label })),
    {
        self.record(Ok(RenderCommand::PushDebugGroup { label }))
    }

    pub fn pop_debug_group(&mut self) -> (r: Result<(), GpuError>)
        ensures
            r == render_step(old(self)@, Ok(RenderCommand::PopDebugGroup)),
            final(self)@ == render_after(old(self)@, Ok(RenderCommand::PopDebugGroup)),
    {
        self.record(Ok(RenderCommand::PopDebugGroup))
    }

    pub fn insert_debug_marker(&mut self, label: String) -> (r: Result<(), GpuError>)
        ensures
            r == render_step(old(self)@, Ok(RenderCommand::InsertDebugMarker { label })),
            final(self)@ == render_after(old(self)@, Ok(RenderCommand::InsertDebugMarker { label })),
    {
        self.record(Ok(RenderCommand::InsertDebugMarker { label }))
    }
}


/// A compute pass handle as a mathematical value.
pub struct ComputePassView {
    pub id: u64,
    pub open: bool,
    pub commands: Seq<ComputeCommand>,
}

/// A compute pass handle: records commands while open, and hands them to its
/// encoder exactly once, when it ends or is released.
#[derive(Debug)]
pub struct GpuComputePassEncoder {
    pub(crate) id: u64,
    pub(crate) open: bool,
    pub(crate) commands: Vec<ComputeCommand>,
}

impl View for GpuComputePassEncoder {
    type V = ComputePassView;

    closed spec fn view(&self) -> ComputePassView {
        ComputePassView { id: self.id, open: self.open, commands: self.commands@ }
    }
}

pub open spec fn opened_compute(id: u64) -> ComputePassView {
    ComputePassView { id, open: true, commands: Seq::empty() }
}

pub open spec fn record_compute(p: ComputePassView, c: ComputeCommand) -> ComputePassView {
    if p.open {
        ComputePassView { commands: p.commands.push(c), ..p }
    } else {
        p
    }
}

/// What a compute recording operation reports: `SessionEnded` on an ended pass.
pub open spec fn compute_step(p: ComputePassView) -> Result<(), GpuError> {
    if p.open {
        Ok(())
    } else {
        Err(GpuError::SessionEnded)
    }
}

pub open spec fn compute_end_outcome(p: ComputePassView, e: EncoderView) -> Result<(), GpuError> {
    if !p.open || e.state == (EncoderState::InPass { id: p.id }) {
        Ok(())
    } else {
        Err(GpuError::ForeignEncoder)
    }
}

pub open spec fn compute_entry(p: ComputePassView) -> EncoderEntry {
    EncoderEntry::ComputePass { id: p.id, compute_commands: p.commands }
}

pub open spec fn encoder_after_compute_end(p: ComputePassView, e: EncoderView) -> EncoderView {
    if p.open && e.state == (EncoderState::InPass { id: p.id }) {
        EncoderView { state: EncoderState::Recording, log: e.log.push(compute_entry(p)) }
    } else {
        e
    }
}

pub open spec fn pass_after_compute_end(p: ComputePassView, e: EncoderView) -> ComputePassView {
    if p.open && e.state == (EncoderState::InPass { id: p.id }) {
        ComputePassView { open: false, commands: Seq::empty(), ..p }
    } else {
        p
    }
}

/// Whether the encoder takes a command outside any pass.
pub open spec fn direct_outcome(e: EncoderView) -> Result<(), GpuError> {
    match e.state {
        EncoderState::Recording => Ok(()),
        EncoderState::InPass { .. } => Err(GpuError::PassOpen),
        EncoderState::Finished => Err(GpuError::EncoderFinished),
    }
}

/// The encoder after a transfer command, or unchanged when it is refused.
pub open spec fn after_transfer(e: EncoderView, t: Result<TransferCommand, GpuError>) -> EncoderView {
    match (direct_outcome(e), t) {
        (Ok(_), Ok(command)) => EncoderView { log: e.log.push(EncoderEntry::Transfer { command }), ..e },
        _ => e,
    }
}

/// What a transfer operation reports: the encoder's refusal first, then the command's.
pub open spec fn transfer_step(e: EncoderView, t: Result<TransferCommand, GpuError>) -> Result<(), GpuError> {
    match direct_outcome(e) {
        Err(err) => Err(err),
        Ok(_) => match t {
            Ok(_) => Ok(()),
            Err(err) => Err(err),
        },
    }
}

/// A finished command list, until it is handed to the queue.
#[derive(Debug)]
pub struct GpuCommandBuffer {
    pub(crate) commands: Option<Vec<EncoderCommand>>,
}

impl View for GpuCommandBuffer {
    type V = Option<Seq<EncoderEntry>>;

    closed spec fn view(&self) -> Option<Seq<EncoderEntry>> {
        match self.commands {
            Some(v) => Some(v@.map_values(|c: EncoderCommand| c@)),
            None => None,
        }
    }
}

impl GpuCommandBuffer {
    /// Hands out the recorded commands, once; later calls get `None`.
    pub fn take_commands(&mut self) -> (r: Option<Vec<EncoderCommand>>)
        ensures
            final(self)@ == None::<Seq<EncoderEntry>>,
            match r {
                Some(v) => old(self)@ == Some(v@.map_values(|c: EncoderCommand| c@)),
                None => old(self)@ == None::<Seq<EncoderEntry>>,
            },
    {
        let mut out: Option<Vec<EncoderCommand>> = None;
        core::mem::swap(&mut out, &mut self.commands);
        out
    }

    pub fn is_submitted(&self) -> (b: bool)
        ensures
            b == self@.is_none(),
    {
        self.commands.is_none()
    }
}

impl GpuCommandEncoder {
    /// Begins a compute pass.
    pub fn begin_compute_pass(&mut self) -> (r: Result<GpuComputePassEncoder, GpuError>)
        requires
            old(self)@.wf(),
        ensures
            final(self)@ == after_begin(old(self)@),
            final(self)@.wf(),
            match begin_outcome(old(self)@) {
                Ok(id) => r.is_ok() && r.unwrap()@ == opened_compute(id),
                Err(err) => r == Err::<GpuComputePassEncoder, GpuError>(err),
            },
    {
        match self.state {
            EncoderState::Recording => {
                let id = self.log.len() as u64;
                self.state = EncoderState::InPass { id };
                Ok(GpuComputePassEncoder { id, open: true, commands: Vec::new() })
            },
            EncoderState::InPass { .. } => Err(GpuError::PassOpen),
            EncoderState::Finished => Err(GpuError::EncoderFinished),
        }
    }

    fn record_transfer(&mut self, t: Result<TransferCommand, GpuError>) -> (r: Result<(), GpuError>)
        requires
            old(self)@.wf(),
        ensures
            r == transfer_step(old(self)@, t),
            final(self)@ == after_transfer(old(self)@, t),
            final(self)@.wf(),
    {
        match self.state {
            EncoderState::Recording => {},
            EncoderState::InPass { .. } => {
                return Err(GpuError::PassOpen);
            },
            EncoderState::Finished => {
                return Err(GpuError::EncoderFinished);
            },
        }
        match t {
            Ok(command) => {
                let entry = EncoderCommand::Transfer { command };
                proof {
                    lemma_view_push(self.log@, entry);
                }
                self.log.push(entry);
                // The length is a usize, so the log stays within 64-bit identifiers.
                let _len = self.log.len();
                Ok(())
            },
            Err(e) => Err(e),
        }
    }

    pub fn copy_buffer_to_buffer(
        &mut self,
        source: u64,
        source_offset: u64,
        destination: u64,
        destination_offset: u64,
        size: u64,
    ) -> (r: Result<(), GpuError>)
        requires
            old(self)@.wf(),
        ensures
            ({
                let t = TransferCommand::CopyBufferToBuffer { source, source_offset, destination, destination_offset, size };
                &&& r == transfer_step(old(self)@, Ok(t))
                &&& final(self)@ == after_transfer(old(self)@, Ok(t))
            }),
            final(self)@.wf(),
    {
        self.record_transfer(Ok(TransferCommand::CopyBufferToBuffer { source, source_offset, destination, destination_offset, size }))
    }

    /// Copies rows of a buffer into a texture; mip level and origin default
    /// to 0, the depth to 1.
    pub fn copy_buffer_to_texture(
        &mut self,
        source: u64,
        layout: ImageLayout,
        destination: u64,
        mip_level: Option<u32>,
        origin_x: Option<u32>,
        origin_y: Option<u32>,
        origin_z: Option<u32>,
        width: u32,
        height: u32,
        depth: Option<u32>,
    ) -> (r: Result<(), GpuError>)
        requires
            old(self)@.wf(),
        ensures
            ({
                let t = TransferCommand::CopyBufferToTexture {
                    source,
                    layout,
                    destination,
                    origin: spec_origin(mip_level, origin_x, origin_y, origin_z),
                    extent: Extent { width, height, depth_or_array_layers: or_default(depth, 1) },
                };
                &&& r == transfer_step(old(self)@, Ok(t))
                &&& final(self)@ == after_transfer(old(self)@, Ok(t))
            }),
            final(self)@.wf(),
    {
        let origin = texture_origin(mip_level, origin_x, origin_y, origin_z);
        let extent = Extent { width, height, depth_or_array_layers: u32_or(depth, 1) };
        self.record_transfer(Ok(TransferCommand::CopyBufferToTexture { source, layout, destination, origin, extent }))
    }

    /// Copies a block of a texture into rows of a buffer; mip level and
    /// origin default to 0, the depth to 1.
    pub fn copy_texture_to_buffer(
        &mut self,
        source: u64,
        mip_level: Option<u32>,
        origin_x: Option<u32>,
        origin_y: Option<u32>,
        origin_z: Option<u32>,
        destination: u64,
        layout: ImageLayout,
        width: u32,
        height: u32,
        depth: Option<u32>,
    ) -> (r: Result<(), GpuError>)
        requires
            old(self)@.wf(),
        ensures
            ({
                let t = TransferCommand::CopyTextureToBuffer {
                    source,
                    origin: spec_origin(mip_level, origin_x, origin_y, origin_z),
                    destination,
                    layout,
                    extent: Extent { width, height, depth_or_array_layers: or_default(depth, 1) },
                };
                &&& r == transfer_step(old(self)@, Ok(t))
                &&& final(self)@ == after_transfer(old(self)@, Ok(t))
            }),
            final(self)@.wf(),
    {
        let origin = texture_origin(mip_level, origin_x, origin_y, origin_z);
        let extent = Extent { width, height, depth_or_array_layers: u32_or(depth, 1) };
        self.record_transfer(Ok(TransferCommand::CopyTextureToBuffer { source, origin, destination, layout, extent }))
    }

    pub fn write_timestamp(&mut self, query_set: u64, query_index: u32) -> (r: Result<(), GpuError>)
        requires
            old(self)@.wf(),
        ensures
            r == transfer_step(old(self)@, Ok(TransferCommand::WriteTimestamp { query_set, index: query_index })),
            final(self)@ == after_transfer(old(self)@, Ok(TransferCommand::WriteTimestamp { query_set, index: query_index })),
            final(self)@.wf(),
    {
        self.record_transfer(Ok(TransferCommand::WriteTimestamp { query_set, index: query_index }))
    }

    /// Resolves queries `first_query .. first_query + query_count` into a
    /// buffer; a range whose end does not fit in 32 bits is refused.
    pub fn resolve_query_set(
        &mut self,
        query_set: u64,
        first_query: u32,
        query_count: u32,
        destination: u64,
        destination_offset: u32,
    ) -> (r: Result<(), GpuError>)
        requires
            old(self)@.wf(),
        ensures
            ({
                let t = if first_query + query_count <= u32::MAX {
                    Ok(TransferCommand::ResolveQuerySet {
                        query_set,
                        first_query,
                        query_count,
                        destination,
                        destination_offset: destination_offset as u64,
                    })
                } else {
                    Err(GpuError::RangeOverflow)
                };
                &&& r == transfer_step(old(self)@, t)
                &&& final(self)@ == after_transfer(old(self)@, t)
            }),
            final(self)@.wf(),
    {
        let t = if query_count <= u32::MAX - first_query {
            Ok(TransferCommand::ResolveQuerySet {
                query_set,
                first_query,
                query_count,
                destination,
                destination_offset: destination_offset as u64,
            })
        } else {
            Err(GpuError::RangeOverflow)
        };
        self.record_transfer(t)
    }

    /// Ends encoding and hands out everything recorded. Refused while a pass
    /// is open and once the encoder has finished.
    pub fn finish(&mut self) -> (r: Result<GpuCommandBuffer, GpuError>)
        requires
            old(self)@.wf(),
        ensures
            final(self)@.wf(),
            match direct_outcome(old(self)@) {
                Ok(_) => {
                    &&& r.is_ok()
                    &&& r.unwrap()@ == Some(old(self)@.log)
                    &&& final(self)@ == (EncoderView { state: EncoderState::Finished, log: Seq::empty() })
                },
                Err(err) => r == Err::<GpuCommandBuffer, GpuError>(err) && final(self)@ == old(self)@,
            },
    {
        match self.state {
            EncoderState::Recording => {},
            EncoderState::InPass { .. } => {
                return Err(GpuError::PassOpen);
            },
            EncoderState::Finished => {
                return Err(GpuError::EncoderFinished);
            },
        }
        let mut log: Vec<EncoderCommand> = Vec::new();
        core::mem::swap(&mut log, &mut self.log);
        self.state = EncoderState::Finished;
        assert(self@.log =~= Seq::empty());
        Ok(GpuCommandBuffer { commands: Some(log) })
    }
}

/// The texture side of a copy, with absent values taken as 0.
pub open spec fn spec_origin(mip_level: Option<u32>, x: Option<u32>, y: Option<u32>, z: Option<u32>) -> TextureOrigin {
    TextureOrigin { mip_level: or_default(mip_level, 0), x: or_default(x, 0), y: or_default(y, 0), z: or_default(z, 0) }
}

fn texture_origin(mip_level: Option<u32>, x: Option<u32>, y: Option<u32>, z: Option<u32>) -> (r: TextureOrigin)
    ensures
        r == spec_origin(mip_level, x, y, z),
{
    TextureOrigin { mip_level: u32_or(mip_level, 0), x: u32_or(x, 0), y: u32_or(y, 0), z: u32_or(z, 0) }
}

impl GpuComputePassEncoder {
    pub fn is_open(&self) -> (b: bool)
        ensures
            b == self@.open,
    {
        self.open
    }

    fn record(&mut self, c: ComputeCommand) -> (r: Result<(), GpuError>)
        ensures
            r == compute_step(old(self)@),
            final(self)@ == record_compute(old(self)@, c),
    {
        if self.open {
            self.commands.push(c);
            Ok(())
        } else {
            Err(GpuError::SessionEnded)
        }
    }

    /// Finalizes the pass into its encoder, which then takes commands again.
    /// Ending a pass that has ended does nothing.
    pub fn end(&mut self, encoder: &mut GpuCommandEncoder) -> (r: Result<(), GpuError>)
        requires
            old(encoder)@.wf(),
        ensures
            r == compute_end_outcome(old(self)@, old(encoder)@),
            final(self)@ == pass_after_compute_end(old(self)@, old(encoder)@),
            final(encoder)@ == encoder_after_compute_end(old(self)@, old(encoder)@),
            final(encoder)@.wf(),
    {
        if !self.open {
            return Ok(());
        }
        let is_parent = match encoder.state {
            EncoderState::InPass { id } => id == self.id,
            _ => false,
        };
        if !is_parent {
            return Err(GpuError::ForeignEncoder);
        }
        let mut commands: Vec<ComputeCommand> = Vec::new();
        core::mem::swap(&mut commands, &mut self.commands);
        let entry = EncoderCommand::ComputePass { id: self.id, compute_commands: commands };
        proof {
            lemma_view_push(encoder.log@, entry);
        }
        encoder.log.push(entry);
        // The length is a usize, so the log stays within 64-bit identifiers.
        let _len = encoder.log.len();
        encoder.state = EncoderState::Recording;
        self.open = false;
        assert(self@.commands =~= Seq::empty());
        Ok(())
    }

    /// The cleanup path for a handle that is dropped: finalizes the pass
    /// exactly as `end` would, and does nothing if it has ended.
    pub fn release(self, encoder: &mut GpuCommandEncoder)
        requires
            old(encoder)@.wf(),
        ensures
            final(encoder)@ == encoder_after_compute_end(self@, old(encoder)@),
            final(encoder)@.wf(),
    {
        let mut pass = self;
        let _ = pass.end(encoder);
    }

    pub fn set_pipeline(&mut self, pipeline: u64) -> (r: Result<(), GpuError>)
        ensures
            r == compute_step(old(self)@),
            final(self)@ == record_compute(old(self)@, ComputeCommand::SetPipeline { pipeline }),
    {
        self.record(ComputeCommand::SetPipeline { pipeline })
    }

    pub fn set_bind_group(&mut self, index: u32, bind_group: u64, dynamic_offsets: Option<Vec<u32>>) -> (r: Result<(), GpuError>)
        ensures
            r == compute_step(old(self)@),
            final(self)@ == record_compute(
                old(self)@,
                ComputeCommand::SetBindGroup { index, group: bind_group, offsets: dynamic_offsets },
            ),
    {
        self.record(ComputeCommand::SetBindGroup { index, group: bind_group, offsets: dynamic_offsets })
    }

    /// Dispatches a grid of workgroups; absent dimensions are 1.
    pub fn dispatch_workgroups(
        &mut self,
        workgroup_count_x: u32,
        workgroup_count_y: Option<u32>,
        workgroup_count_z: Option<u32>,
    ) -> (r: Result<(), GpuError>)
        ensures
            r == compute_step(old(self)@),
            final(self)@ == record_compute(
                old(self)@,
                ComputeCommand::Dispatch {
                    x: workgroup_count_x,
                    y: or_default(workgroup_count_y, 1),
                    z: or_default(workgroup_count_z, 1),
                },
            ),
    {
        let y = u32_or(workgroup_count_y, 1);
        let z = u32_or(workgroup_count_z, 1);
        self.record(ComputeCommand::Dispatch { x: workgroup_count_x, y, z })
    }

    pub fn dispatch_workgroups_indirect(&mut self, indirect_buffer: u64, indirect_offset: u64) -> (r: Result<(), GpuError>)
        ensures
            r == compute_step(old(self)@),
            final(self)@ == record_compute(
                old(self)@,
                ComputeCommand::DispatchIndirect { buffer: indirect_buffer, offset: indirect_offset },
            ),
    {
        self.record(ComputeCommand::DispatchIndirect { buffer: indirect_buffer, offset: indirect_offset })
    }

    pub fn push_debug_group(&mut self, label: String) -> (r: Result<(), GpuError>)
        ensures
            r == compute_step(old(self)@),
            final(self)@ == record_compute(old(self)@, ComputeCommand::PushDebugGroup { label }),
    {
        self.record(ComputeCommand::PushDebugGroup { label })
    }

    pub fn pop_debug_group(&mut self) -> (r: Result<(), GpuError>)
        ensures
            r == compute_step(old(self)@),
            final(self)@ == record_compute(old(self)@, ComputeCommand::PopDebugGroup),
    {
        self.record(ComputeCommand::PopDebugGroup)
    }

    pub fn insert_debug_marker(&mut self, label: String) -> (r: Result<(), GpuError>)
        ensures
            r == compute_step(old(self)@),
            final(self)@ == record_compute(old(self)@, ComputeCommand::InsertDebugMarker { label }),
    {
        self.record(ComputeCommand::InsertDebugMarker { label })
    }
}

} // verus!
