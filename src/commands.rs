use vstd::prelude::*;

verus! {

/// A colour as four IEEE-754 binary64 bit patterns (red, green, blue, alpha).
/// The library carries colours through unchanged and never computes on them.
#[derive(Clone, Copy, Debug, PartialEq, Eq, Structural)]
pub struct ColorBits {
    pub r: u64,
    pub g: u64,
    pub b: u64,
    pub a: u64,
}

/// Bit pattern of the binary64 value 1.0.
pub const ONE_BITS: u64 = 0x3ff0_0000_0000_0000;

impl ColorBits {
    /// Opaque black: zero colour channels and an alpha of 1.0.
    pub open spec fn spec_black() -> ColorBits {
        ColorBits { r: 0, g: 0, b: 0, a: ONE_BITS }
    }

    pub fn black() -> (c: ColorBits)
        ensures
            c == ColorBits::spec_black(),
    {
        ColorBits { r: 0, g: 0, b: 0, a: ONE_BITS }
    }
}

/// The part of a buffer that a binding uses: from `offset` to the end, or
/// `size` bytes from `offset`.
#[derive(Clone, Copy, Debug, PartialEq, Eq, Structural)]
pub struct BufferRange {
    pub offset: u64,
    pub size: Option<u64>,
}

/// The range that an optional offset and size select. A size without an
/// offset selects the whole buffer.
pub open spec fn spec_buffer_range(offset: Option<u64>, size: Option<u64>) -> Option<BufferRange> {
    match offset {
        Some(o) => match size {
            Some(s) => if o + s <= u64::MAX {
                Some(BufferRange { offset: o, size: Some(s) })
            } else {
                None
            },
            None => Some(BufferRange { offset: o, size: None }),
        },
        None => Some(BufferRange { offset: 0, size: None }),
    }
}

/// The range that an optional offset and size select; `None` when the end of
/// the range does not fit in 64 bits.
pub fn buffer_range(offset: Option<u64>, size: Option<u64>) -> (r: Option<BufferRange>)
    ensures
        r == spec_buffer_range(offset, size),
{
    match offset {
        Some(o) => match size {
            Some(s) => if s <= u64::MAX - o {
                Some(BufferRange { offset: o, size: Some(s) })
            } else {
                None
            },
            None => Some(BufferRange { offset: o, size: None }),
        },
        None => Some(BufferRange { offset: 0, size: None }),
    }
}

/// Width of the indices in an index buffer.
#[derive(Clone, Copy, Debug, PartialEq, Eq, Structural)]
pub enum IndexFormat {
    Uint16,
    Uint32,
}

/// A viewport as six IEEE-754 binary32 bit patterns.
#[derive(Clone, Copy, Debug, PartialEq, Eq, Structural)]
pub struct Viewport {
    pub x: u32,
    pub y: u32,
    pub width: u32,
    pub height: u32,
    pub min_depth: u32,
    pub max_depth: u32,
}

/// A scissor rectangle in pixels.
#[derive(Clone, Copy, Debug, PartialEq, Eq, Structural)]
pub struct ScissorRect {
    pub x: u32,
    pub y: u32,
    pub width: u32,
    pub height: u32,
}

/// One command recorded in a render pass. Pipelines, bind groups, buffers and
/// bundles are named by the identifiers that their owner gave them.
#[derive(Debug)]
pub enum RenderCommand {
    SetPipeline { pipeline: u64 },
    SetBindGroup { index: u32, group: u64, offsets: Option<Vec<u32>> },
    SetVertexBuffer { slot: u32, buffer: u64, range: BufferRange },
    SetIndexBuffer { buffer: u64, format: IndexFormat, range: BufferRange },
    Draw { vertex_count: u32, instance_count: u32, first_vertex: u32, first_instance: u32 },
    DrawIndexed {
        index_count: u32,
        instance_count: u32,
        first_index: u32,
        base_vertex: i32,
        first_instance: u32,
    },
    DrawIndirect { buffer: u64, offset: u64 },
    DrawIndexedIndirect { buffer: u64, offset: u64 },
    ExecuteBundles { bundles: Vec<u64> },
    SetViewport { viewport: Viewport },
    SetScissorRect { rect: ScissorRect },
    SetBlendConstant { color: ColorBits },
    SetStencilReference { reference: u32 },
    PushDebugGroup { label: String },
    PopDebugGroup,
    InsertDebugMarker { label: String },
}

/// One command recorded in a compute pass.
#[derive(Debug)]
pub enum ComputeCommand {
    SetPipeline { pipeline: u64 },
    SetBindGroup { index: u32, group: u64, offsets: Option<Vec<u32>> },
    Dispatch { x: u32, y: u32, z: u32 },
    DispatchIndirect { buffer: u64, offset: u64 },
    PushDebugGroup { label: String },
    PopDebugGroup,
    InsertDebugMarker { label: String },
}

/// The state that a render pass's commands have bound so far: what a draw
/// recorded at that point works with.
pub struct RenderBindings {
    pub pipeline: Option<u64>,
    pub bind_groups: Map<u32, (u64, Option<Vec<u32>>)>,
    pub vertex_buffers: Map<u32, (u64, BufferRange)>,
    pub index_buffer: Option<(u64, IndexFormat, BufferRange)>,
    pub viewport: Option<Viewport>,
    pub scissor: Option<ScissorRect>,
    pub blend_constant: Option<ColorBits>,
    pub stencil_reference: Option<u32>,
}

/// Nothing bound: the state at the start of a pass.
pub open spec fn initial_bindings() -> RenderBindings {
    RenderBindings {
        pipeline: None,
        bind_groups: Map::empty(),
        vertex_buffers: Map::empty(),
        index_buffer: None,
        viewport: None,
        scissor: None,
        blend_constant: None,
        stencil_reference: None,
    }
}

/// The bindings after one more command. A later setting replaces an earlier
/// one of the same slot; draws and debug markers leave everything as it was.
/// Executing bundles clears the pipeline and the bind group, vertex and index
/// bindings, and keeps the dynamic state.
pub open spec fn apply_render(s: RenderBindings, c: RenderCommand) -> RenderBindings {
    match c {
        RenderCommand::SetPipeline { pipeline } => RenderBindings { pipeline: Some(pipeline), ..s },
        RenderCommand::SetBindGroup { index, group, offsets } => RenderBindings {
            bind_groups: s.bind_groups.insert(index, (group, offsets)),
            ..s
        },
        RenderCommand::SetVertexBuffer { slot, buffer, range } => RenderBindings {
            vertex_buffers: s.vertex_buffers.insert(slot, (buffer, range)),
            ..s
        },
        RenderCommand::SetIndexBuffer { buffer, format, range } => RenderBindings {
            index_buffer: Some((buffer, format, range)),
            ..s
        },
        RenderCommand::ExecuteBundles { .. } => RenderBindings {
            pipeline: None,
            bind_groups: Map::empty(),
            vertex_buffers: Map::empty(),
            index_buffer: None,
            ..s
        },
        RenderCommand::SetViewport { viewport } => RenderBindings { viewport: Some(viewport), ..s },
        RenderCommand::SetScissorRect { rect } => RenderBindings { scissor: Some(rect), ..s },
        RenderCommand::SetBlendConstant { color } => RenderBindings {
            blend_constant: Some(color),
            ..s
        },
        RenderCommand::SetStencilReference { reference } => RenderBindings {
            stencil_reference: Some(reference),
            ..s
        },
        _ => s,
    }
}

/// The bindings after a sequence of commands, applied in order.
pub open spec fn apply_render_all(s: RenderBindings, cs: Seq<RenderCommand>) -> RenderBindings
    decreases cs.len(),
{
    if cs.len() == 0 {
        s
    } else {
        apply_render(apply_render_all(s, cs.drop_last()), cs.last())
    }
}

/// What the commands of a render pass have bound by their end.
pub open spec fn render_bindings(cs: Seq<RenderCommand>) -> RenderBindings {
    apply_render_all(initial_bindings(), cs)
}

/// The state that a compute pass's commands have bound so far.
pub struct ComputeBindings {
    pub pipeline: Option<u64>,
    pub bind_groups: Map<u32, (u64, Option<Vec<u32>>)>,
}

pub open spec fn apply_compute(s: ComputeBindings, c: ComputeCommand) -> ComputeBindings {
    match c {
        ComputeCommand::SetPipeline { pipeline } => ComputeBindings { pipeline: Some(pipeline), ..s },
        ComputeCommand::SetBindGroup { index, group, offsets } => ComputeBindings {
            bind_groups: s.bind_groups.insert(index, (group, offsets)),
            ..s
        },
        _ => s,
    }
}

pub open spec fn apply_compute_all(s: ComputeBindings, cs: Seq<ComputeCommand>) -> ComputeBindings
    decreases cs.len(),
{
    if cs.len() == 0 {
        s
    } else {
        apply_compute(apply_compute_all(s, cs.drop_last()), cs.last())
    }
}

/// Applying two runs of render commands one after the other is applying
/// their concatenation.
pub proof fn lemma_apply_render_concat(s: RenderBindings, a: Seq<RenderCommand>, b: Seq<RenderCommand>)
    ensures
        apply_render_all(s, a + b) == apply_render_all(apply_render_all(s, a), b),
    decreases b.len(),
{
    if b.len() == 0 {
        assert(a + b =~= a);
    } else {
        assert((a + b).drop_last() =~= a + b.drop_last());
        lemma_apply_render_concat(s, a, b.drop_last());
    }
}

pub proof fn lemma_apply_compute_concat(s: ComputeBindings, a: Seq<ComputeCommand>, b: Seq<ComputeCommand>)
    ensures
        apply_compute_all(s, a + b) == apply_compute_all(apply_compute_all(s, a), b),
    decreases b.len(),
{
    if b.len() == 0 {
        assert(a + b =~= a);
    } else {
        assert((a + b).drop_last() =~= a + b.drop_last());
        lemma_apply_compute_concat(s, a, b.drop_last());
    }
}

} // verus!

verus! {

/// What a render pass does with a colour attachment's old contents.
#[derive(Clone, Copy, Debug, PartialEq, Eq, Structural)]
pub enum LoadOp {
    Clear { color: ColorBits },
    Load,
}

/// Whether a render pass keeps what it rendered into an attachment.
#[derive(Clone, Copy, Debug, PartialEq, Eq, Structural)]
pub enum StoreOp {
    Store,
    Discard,
}

/// A colour target of a render pass, with the view it resolves into, if any.
#[derive(Clone, Copy, Debug, PartialEq, Eq, Structural)]
pub struct ColorAttachment {
    pub view: u64,
    pub resolve_target: Option<u64>,
    pub load: LoadOp,
    pub store: StoreOp,
}

/// What a render pass does with the old depth values: clear them to a value
/// (an IEEE-754 binary64 bit pattern) or keep them.
#[derive(Clone, Copy, Debug, PartialEq, Eq, Structural)]
pub enum DepthLoadOp {
    Clear { value: u64 },
    Load,
}

/// What a render pass does with the old stencil values: clear them to a
/// value or keep them.
#[derive(Clone, Copy, Debug, PartialEq, Eq, Structural)]
pub enum StencilLoadOp {
    Clear { value: u32 },
    Load,
}

/// The stencil operations of a depth-stencil target.
#[derive(Clone, Copy, Debug, PartialEq, Eq, Structural)]
pub struct StencilOps {
    pub load: StencilLoadOp,
    pub store: StoreOp,
}

/// The depth target of a render pass, with its stencil operations, if any.
#[derive(Clone, Copy, Debug, PartialEq, Eq, Structural)]
pub struct DepthAttachment {
    pub view: u64,
    pub load: DepthLoadOp,
    pub store: StoreOp,
    pub stencil: Option<StencilOps>,
}

/// The targets that a render pass draws into.
#[derive(Debug)]
pub struct RenderPassSetup {
    pub color_attachments: Vec<ColorAttachment>,
    pub depth: Option<DepthAttachment>,
}

pub struct SetupView {
    pub color_attachments: Seq<ColorAttachment>,
    pub depth: Option<DepthAttachment>,
}

impl View for RenderPassSetup {
    type V = SetupView;

    open spec fn view(&self) -> SetupView {
        SetupView { color_attachments: self.color_attachments@, depth: self.depth }
    }
}

impl RenderPassSetup {
    /// A setup with no targets.
    pub fn empty() -> (s: RenderPassSetup)
        ensures
            s@ == (SetupView { color_attachments: Seq::empty(), depth: None }),
    {
        RenderPassSetup { color_attachments: Vec::new(), depth: None }
    }
}

/// Where image rows sit in a buffer that a copy reads or writes.
#[derive(Clone, Copy, Debug, PartialEq, Eq, Structural)]
pub struct ImageLayout {
    pub offset: u64,
    pub bytes_per_row: u32,
    pub rows_per_image: Option<u32>,
}

/// The mip level and origin of the texture side of a copy.
#[derive(Clone, Copy, Debug, PartialEq, Eq, Structural)]
pub struct TextureOrigin {
    pub mip_level: u32,
    pub x: u32,
    pub y: u32,
    pub z: u32,
}

/// The size of a copied block of texels.
#[derive(Clone, Copy, Debug, PartialEq, Eq, Structural)]
pub struct Extent {
    pub width: u32,
    pub height: u32,
    pub depth_or_array_layers: u32,
}

/// A command recorded on a command encoder outside any pass.
#[derive(Clone, Copy, Debug, PartialEq, Eq, Structural)]
pub enum TransferCommand {
    CopyBufferToBuffer {
        source: u64,
        source_offset: u64,
        destination: u64,
        destination_offset: u64,
        size: u64,
    },
    CopyBufferToTexture { source: u64, layout: ImageLayout, destination: u64, origin: TextureOrigin, extent: Extent },
    CopyTextureToBuffer { source: u64, origin: TextureOrigin, destination: u64, layout: ImageLayout, extent: Extent },
    WriteTimestamp { query_set: u64, index: u32 },
    ResolveQuerySet {
        query_set: u64,
        first_query: u32,
        query_count: u32,
        destination: u64,
        destination_offset: u64,
    },
}

/// An entry of a command encoder's log: a finished pass or a transfer.
#[derive(Debug)]
pub enum EncoderCommand {
    RenderPass { id: u64, setup: RenderPassSetup, commands: Vec<RenderCommand> },
    ComputePass { id: u64, compute_commands: Vec<ComputeCommand> },
    Transfer { command: TransferCommand },
}

/// An encoder log entry as a mathematical value.
pub enum EncoderEntry {
    RenderPass { id: u64, setup: SetupView, commands: Seq<RenderCommand> },
    ComputePass { id: u64, compute_commands: Seq<ComputeCommand> },
    Transfer { command: TransferCommand },
}

impl View for EncoderCommand {
    type V = EncoderEntry;

    open spec fn view(&self) -> EncoderEntry {
        match self {
            EncoderCommand::RenderPass { id, setup, commands } => EncoderEntry::RenderPass {
                id: *id,
                setup: setup@,
                commands: commands@,
            },
            EncoderCommand::ComputePass { id, compute_commands } => EncoderEntry::ComputePass {
                id: *id,
                compute_commands: compute_commands@,
            },
            EncoderCommand::Transfer { command } => EncoderEntry::Transfer { command: *command },
        }
    }
}

/// The pass that an entry finalized, if it is a pass.
pub open spec fn entry_pass_id(e: EncoderEntry) -> Option<u64> {
    match e {
        EncoderEntry::RenderPass { id, .. } => Some(id),
        EncoderEntry::ComputePass { id, .. } => Some(id),
        EncoderEntry::Transfer { .. } => None,
    }
}

/// How many entries of a log finalize the pass `id`.
pub open spec fn finalizations(log: Seq<EncoderEntry>, id: u64) -> nat
    decreases log.len(),
{
    if log.len() == 0 {
        0
    } else {
        finalizations(log.drop_last(), id) + if entry_pass_id(log.last()) == Some(id) {
            1nat
        } else {
            0nat
        }
    }
}

} // verus!
