use vstd::prelude::*;
use crate::commands::{
    BufferRange, ColorAttachment, ColorBits, ComputeCommand, DepthAttachment, DepthLoadOp,
    EncoderEntry, LoadOp, RenderCommand, RenderPassSetup, SetupView, StoreOp,
    ONE_BITS,
};
use crate::error::GpuError;
use crate::session::{
    direct_outcome, EncoderState, EncoderView, GpuCommandEncoder, GpuComputePassEncoder,
    GpuRenderPassEncoder, RenderPassView,
};
use crate::tokens::{index_format_or_default, parse_index_format_lenient};

verus! {

/// The clear colour of attachment `i`: the first four components of the
/// `i`-th entry when there is one with at least four, opaque black otherwise.
pub open spec fn clear_color_at(clear_colors: Option<Vec<Vec<u64>>>, i: int) -> ColorBits {
    match clear_colors {
        Some(cs) => if i < cs@.len() && cs@[i]@.len() >= 4 {
            ColorBits { r: cs@[i]@[0], g: cs@[i]@[1], b: cs@[i]@[2], a: cs@[i]@[3] }
        } else {
            ColorBits::spec_black()
        },
        None => ColorBits::spec_black(),
    }
}

/// The view that attachment `i` resolves into, when one is given for it.
pub open spec fn resolve_target_at(targets: Option<Vec<u64>>, i: int) -> Option<u64> {
    match targets {
        Some(ts) => if i < ts@.len() {
            Some(ts@[i])
        } else {
            None
        },
        None => None,
    }
}

/// Colour attachment `i` of an inline pass: cleared, then stored.
pub open spec fn cleared_attachment_at(
    views: Seq<u64>,
    clear_colors: Option<Vec<Vec<u64>>>,
    resolve_targets: Option<Vec<u64>>,
    i: int,
) -> ColorAttachment {
    ColorAttachment {
        view: views[i],
        resolve_target: resolve_target_at(resolve_targets, i),
        load: LoadOp::Clear { color: clear_color_at(clear_colors, i) },
        store: StoreOp::Store,
    }
}

/// The depth attachment of an inline pass: cleared to the given value, 1.0
/// when none is given, then stored.
pub open spec fn cleared_depth(view: Option<u64>, clear_depth: Option<u64>) -> Option<DepthAttachment> {
    match view {
        Some(v) => Some(
            DepthAttachment {
                view: v,
                load: DepthLoadOp::Clear {
                    value: match clear_depth {
                        Some(d) => d,
                        None => ONE_BITS,
                    },
                },
                store: StoreOp::Store,
                stencil: None,
            },
        ),
        None => None,
    }
}

/// The targets of an inline pass.
pub open spec fn cleared_setup_view(
    views: Seq<u64>,
    clear_colors: Option<Vec<Vec<u64>>>,
    resolve_targets: Option<Vec<u64>>,
    depth_view: Option<u64>,
    clear_depth: Option<u64>,
) -> SetupView {
    SetupView {
        color_attachments: Seq::new(
            views.len(),
            |i: int| cleared_attachment_at(views, clear_colors, resolve_targets, i),
        ),
        depth: cleared_depth(depth_view, clear_depth),
    }
}

fn clear_color_for(clear_colors: &Option<Vec<Vec<u64>>>, i: usize) -> (c: ColorBits)
    ensures
        c == clear_color_at(*clear_colors, i as int),
{
    match clear_colors {
        Some(cs) => if i < cs.len() && cs[i].len() >= 4 {
            ColorBits { r: cs[i][0], g: cs[i][1], b: cs[i][2], a: cs[i][3] }
        } else {
            ColorBits::black()
        },
        None => ColorBits::black(),
    }
}

fn resolve_target_for(targets: &Option<Vec<u64>>, i: usize) -> (t: Option<u64>)
    ensures
        t == resolve_target_at(*targets, i as int),
{
    match targets {
        Some(ts) => if i < ts.len() {
            Some(ts[i])
        } else {
            None
        },
        None => None,
    }
}

/// Builds the targets of an inline pass: every colour view cleared (to its
/// colour, or black) and stored, resolving into the view of the same index
/// when one is given, and the depth view, if any, cleared and stored.
pub fn cleared_setup(
    color_attachments: &Vec<u64>,
    clear_colors: &Option<Vec<Vec<u64>>>,
    resolve_targets: &Option<Vec<u64>>,
    depth_view: Option<u64>,
    clear_depth: Option<u64>,
) -> (s: RenderPassSetup)
    ensures
        s@ == cleared_setup_view(color_attachments@, *clear_colors, *resolve_targets, depth_view, clear_depth),
{
    let mut out: Vec<ColorAttachment> = Vec::new();
    let mut i: usize = 0;
    while i < color_attachments.len()
        invariant
            i <= color_attachments@.len(),
            out@.len() == i,
            forall|j: int|
                0 <= j < i ==> #[trigger] out@[j] == cleared_attachment_at(
                    color_attachments@,
                    *clear_colors,
                    *resolve_targets,
                    j,
                ),
        decreases color_attachments@.len() - i,
    {
        let a = ColorAttachment {
            view: color_attachments[i],
            resolve_target: resolve_target_for(resolve_targets, i),
            load: LoadOp::Clear { color: clear_color_for(clear_colors, i) },
            store: StoreOp::Store,
        };
        out.push(a);
        i = i + 1;
    }
    let depth = match depth_view {
        Some(v) => {
            let value = match clear_depth {
                Some(d) => d,
                None => ONE_BITS,
            };
            Some(DepthAttachment { view: v, load: DepthLoadOp::Clear { value }, store: StoreOp::Store, stencil: None })
        },
        None => None,
    };
    let s = RenderPassSetup { color_attachments: out, depth };
    assert(s@.color_attachments =~= cleared_setup_view(
        color_attachments@,
        *clear_colors,
        *resolve_targets,
        depth_view,
        clear_depth,
    ).color_attachments);
    s
}

/// Bind group `i` of the list at index `i`, without dynamic offsets.
pub open spec fn bind_group_commands(groups: Seq<u64>) -> Seq<RenderCommand> {
    Seq::new(
        groups.len(),
        |i: int| RenderCommand::SetBindGroup { index: i as u32, group: groups[i], offsets: None },
    )
}

/// Vertex buffer `i` of the list, whole, at slot `i`.
pub open spec fn vertex_buffer_commands(buffers: Seq<u64>) -> Seq<RenderCommand> {
    Seq::new(
        buffers.len(),
        |i: int| RenderCommand::SetVertexBuffer {
            slot: i as u32,
            buffer: buffers[i],
            range: BufferRange { offset: 0, size: None },
        },
    )
}

pub open spec fn groups_or_none(groups: Option<Vec<u64>>) -> Seq<u64> {
    match groups {
        Some(g) => g@,
        None => Seq::empty(),
    }
}

/// What an inline render pass records before its draw: the pipeline, the
/// bind groups in list order, then the vertex buffers in list order.
pub open spec fn draw_setup_commands(pipeline: u64, groups: Seq<u64>, buffers: Seq<u64>) -> Seq<RenderCommand> {
    seq![RenderCommand::SetPipeline { pipeline }] + bind_group_commands(groups) + vertex_buffer_commands(buffers)
}

/// The encoder after an inline pass: the pass's entry appended, or nothing
/// changed when the encoder refuses it.
pub open spec fn after_inline_pass(e: EncoderView, entry: EncoderEntry) -> EncoderView {
    match direct_outcome(e) {
        Ok(_) => EncoderView { state: EncoderState::Recording, log: e.log.push(entry) },
        Err(_) => e,
    }
}

fn record_draw_setup(pass: &mut GpuRenderPassEncoder, pipeline: u64, groups: &Vec<u64>, buffers: &Vec<u64>)
    requires
        old(pass)@.open,
    ensures
        final(pass)@ == (RenderPassView {
            commands: old(pass)@.commands + draw_setup_commands(pipeline, groups@, buffers@),
            ..old(pass)@
        }),
{
    let ghost start = pass@;
    let _ = pass.set_pipeline(pipeline);
    assert(pass@.commands =~= start.commands + seq![RenderCommand::SetPipeline { pipeline }]
        + bind_group_commands(groups@).take(0));
    let mut i: usize = 0;
    while i < groups.len()
        invariant
            i <= groups@.len(),
            pass@ == (RenderPassView {
                commands: start.commands + seq![RenderCommand::SetPipeline { pipeline }]
                    + bind_group_commands(groups@).take(i as int),
                ..start
            }),
            start.open,
        decreases groups@.len() - i,
    {
        let _ = pass.set_bind_group(i as u32, groups[i], None);
        assert(bind_group_commands(groups@).take(i + 1) =~= bind_group_commands(groups@).take(i as int).push(
            bind_group_commands(groups@)[i as int],
        ));
        i = i + 1;
    }
    assert(bind_group_commands(groups@).take(i as int) =~= bind_group_commands(groups@));
    let ghost mid = pass@.commands;
    assert(pass@.commands =~= mid + vertex_buffer_commands(buffers@).take(0));
    let mut k: usize = 0;
    while k < buffers.len()
        invariant
            k <= buffers@.len(),
            pass@ == (RenderPassView { commands: mid + vertex_buffer_commands(buffers@).take(k as int), ..start }),
            start.open,
        decreases buffers@.len() - k,
    {
        let _ = pass.set_vertex_buffer(k as u32, buffers[k], None, None);
        assert(vertex_buffer_commands(buffers@).take(k + 1) =~= vertex_buffer_commands(buffers@).take(k as int).push(
            vertex_buffer_commands(buffers@)[k as int],
        ));
        k = k + 1;
    }
    assert(vertex_buffer_commands(buffers@).take(k as int) =~= vertex_buffer_commands(buffers@));
    assert(pass@.commands =~= start.commands + draw_setup_commands(pipeline, groups@, buffers@));
}


/// The draw of an inline pass: every vertex once, one instance.
pub open spec fn inline_draw(vertex_count: u32) -> RenderCommand {
    RenderCommand::Draw { vertex_count, instance_count: 1, first_vertex: 0, first_instance: 0 }
}

/// The whole index buffer, in the format named by the token (`uint16` unless
/// it names `uint32`).
pub open spec fn inline_index_buffer(buffer: u64, format: Seq<char>) -> RenderCommand {
    RenderCommand::SetIndexBuffer {
        buffer,
        format: index_format_or_default(format),
        range: BufferRange { offset: 0, size: None },
    }
}

/// The indexed draw of an inline pass: every index once, one instance.
pub open spec fn inline_draw_indexed(index_count: u32) -> RenderCommand {
    RenderCommand::DrawIndexed { index_count, instance_count: 1, first_index: 0, base_vertex: 0, first_instance: 0 }
}

/// The bind groups of an inline compute pass, group `i` at index `i`.
pub open spec fn compute_bind_group_commands(groups: Seq<u64>) -> Seq<ComputeCommand> {
    Seq::new(
        groups.len(),
        |i: int| ComputeCommand::SetBindGroup { index: i as u32, group: groups[i], offsets: None },
    )
}

pub open spec fn compute_setup_commands(pipeline: u64, groups: Seq<u64>) -> Seq<ComputeCommand> {
    seq![ComputeCommand::SetPipeline { pipeline }] + compute_bind_group_commands(groups)
}

fn record_compute_setup(pass: &mut GpuComputePassEncoder, pipeline: u64, groups: &Vec<u64>)
    requires
        old(pass)@.open,
    ensures
        final(pass)@.open,
        final(pass)@.id == old(pass)@.id,
        final(pass)@.commands == old(pass)@.commands + compute_setup_commands(pipeline, groups@),
{
    let ghost start = pass@;
    let _ = pass.set_pipeline(pipeline);
    assert(pass@.commands =~= start.commands + seq![ComputeCommand::SetPipeline { pipeline }]
        + compute_bind_group_commands(groups@).take(0));
    let mut i: usize = 0;
    while i < groups.len()
        invariant
            i <= groups@.len(),
            pass@.open,
            pass@.id == start.id,
            pass@.commands == start.commands + seq![ComputeCommand::SetPipeline { pipeline }]
                + compute_bind_group_commands(groups@).take(i as int),
        decreases groups@.len() - i,
    {
        let _ = pass.set_bind_group(i as u32, groups[i], None);
        assert(compute_bind_group_commands(groups@).take(i + 1) =~= compute_bind_group_commands(groups@).take(
            i as int,
        ).push(compute_bind_group_commands(groups@)[i as int]));
        i = i + 1;
    }
    assert(compute_bind_group_commands(groups@).take(i as int) =~= compute_bind_group_commands(groups@));
    assert(pass@.commands =~= start.commands + compute_setup_commands(pipeline, groups@));
}

fn groups_or_empty(groups: Option<Vec<u64>>) -> (g: Vec<u64>)
    ensures
        g@ == groups_or_none(groups),
{
    match groups {
        Some(g) => g,
        None => Vec::new(),
    }
}

impl GpuCommandEncoder {
    /// Runs a whole render pass in one call: clears the targets, sets the
    /// pipeline, bind groups and vertex buffers, draws `vertex_count`
    /// vertices once, and ends the pass.
    pub fn render_pass(
        &mut self,
        pipeline: u64,
        vertex_buffers: Vec<u64>,
        vertex_count: u32,
        color_attachments: Vec<u64>,
        clear_colors: Option<Vec<Vec<u64>>>,
        bind_groups: Option<Vec<u64>>,
        depth_stencil_attachment: Option<u64>,
        clear_depth: Option<u64>,
        resolve_targets: Option<Vec<u64>>,
    ) -> (r: Result<(), GpuError>)
        requires
            old(self)@.wf(),
        ensures
            final(self)@.wf(),
            r == direct_outcome(old(self)@),
            final(self)@ == after_inline_pass(
                old(self)@,
                EncoderEntry::RenderPass {
                    id: old(self)@.log.len() as u64,
                    setup: cleared_setup_view(
                        color_attachments@,
                        clear_colors,
                        resolve_targets,
                        depth_stencil_attachment,
                        clear_depth,
                    ),
                    commands: draw_setup_commands(pipeline, groups_or_none(bind_groups), vertex_buffers@).push(
                        inline_draw(vertex_count),
                    ),
                },
            ),
    {
        let setup = cleared_setup(&color_attachments, &clear_colors, &resolve_targets, depth_stencil_attachment, clear_depth);
        let mut pass = match self.begin_render_pass(setup) {
            Ok(p) => p,
            Err(e) => {
                return Err(e);
            },
        };
        let groups = groups_or_empty(bind_groups);
        record_draw_setup(&mut pass, pipeline, &groups, &vertex_buffers);
        let _ = pass.draw(vertex_count, None, None, None);
        assert(pass@.commands =~= draw_setup_commands(pipeline, groups@, vertex_buffers@).push(inline_draw(vertex_count)));
        pass.end(self)
    }

    /// Runs a whole indexed render pass in one call: as `render_pass`, with
    /// the index buffer bound whole and `index_count` indices drawn once.
    pub fn render_pass_indexed(
        &mut self,
        pipeline: u64,
        vertex_buffers: Vec<u64>,
        index_buffer: u64,
        index_format: &str,
        index_count: u32,
        color_attachments: Vec<u64>,
        clear_colors: Option<Vec<Vec<u64>>>,
        bind_groups: Option<Vec<u64>>,
        depth_stencil_attachment: Option<u64>,
        clear_depth: Option<u64>,
        resolve_targets: Option<Vec<u64>>,
    ) -> (r: Result<(), GpuError>)
        requires
            old(self)@.wf(),
        ensures
            final(self)@.wf(),
            r == direct_outcome(old(self)@),
            final(self)@ == after_inline_pass(
                old(self)@,
                EncoderEntry::RenderPass {
                    id: old(self)@.log.len() as u64,
                    setup: cleared_setup_view(
                        color_attachments@,
                        clear_colors,
                        resolve_targets,
                        depth_stencil_attachment,
                        clear_depth,
                    ),
                    commands: draw_setup_commands(pipeline, groups_or_none(bind_groups), vertex_buffers@).push(
                        inline_index_buffer(index_buffer, index_format@),
                    ).push(inline_draw_indexed(index_count)),
                },
            ),
    {
        let setup = cleared_setup(&color_attachments, &clear_colors, &resolve_targets, depth_stencil_attachment, clear_depth);
        let mut pass = match self.begin_render_pass(setup) {
            Ok(p) => p,
            Err(e) => {
                return Err(e);
            },
        };
        let groups = groups_or_empty(bind_groups);
        record_draw_setup(&mut pass, pipeline, &groups, &vertex_buffers);
        let format = parse_index_format_lenient(index_format);
        let _ = pass.set_index_buffer_with_format(index_buffer, format, None, None);
        let _ = pass.draw_indexed(index_count, None, None, None, None);
        assert(pass@.commands =~= draw_setup_commands(pipeline, groups@, vertex_buffers@).push(
            inline_index_buffer(index_buffer, index_format@),
        ).push(inline_draw_indexed(index_count)));
        pass.end(self)
    }

    /// Runs a whole render pass in one call whose draw reads its counts from
    /// `indirect_buffer` at `indirect_offset`.
    pub fn render_pass_indirect(
        &mut self,
        pipeline: u64,
        vertex_buffers: Vec<u64>,
        indirect_buffer: u64,
        indirect_offset: u32,
        color_attachments: Vec<u64>,
        clear_colors: Option<Vec<Vec<u64>>>,
        bind_groups: Option<Vec<u64>>,
        depth_stencil_attachment: Option<u64>,
        clear_depth: Option<u64>,
        resolve_targets: Option<Vec<u64>>,
    ) -> (r: Result<(), GpuError>)
        requires
            old(self)@.wf(),
        ensures
            final(self)@.wf(),
            r == direct_outcome(old(self)@),
            final(self)@ == after_inline_pass(
                old(self)@,
                EncoderEntry::RenderPass {
                    id: old(self)@.log.len() as u64,
                    setup: cleared_setup_view(
                        color_attachments@,
                        clear_colors,
                        resolve_targets,
                        depth_stencil_attachment,
                        clear_depth,
                    ),
                    commands: draw_setup_commands(pipeline, groups_or_none(bind_groups), vertex_buffers@).push(
                        RenderCommand::DrawIndirect { buffer: indirect_buffer, offset: indirect_offset as u64 },
                    ),
                },
            ),
    {
        let setup = cleared_setup(&color_attachments, &clear_colors, &resolve_targets, depth_stencil_attachment, clear_depth);
        let mut pass = match self.begin_render_pass(setup) {
            Ok(p) => p,
            Err(e) => {
                return Err(e);
            },
        };
        let groups = groups_or_empty(bind_groups);
        record_draw_setup(&mut pass, pipeline, &groups, &vertex_buffers);
        let _ = pass.draw_indirect(indirect_buffer, indirect_offset as u64);
        assert(pass@.commands =~= draw_setup_commands(pipeline, groups@, vertex_buffers@).push(
            RenderCommand::DrawIndirect { buffer: indirect_buffer, offset: indirect_offset as u64 },
        ));
        pass.end(self)
    }

    /// Runs a whole indexed render pass in one call whose draw reads its
    /// counts from `indirect_buffer` at `indirect_offset`.
    pub fn render_pass_indexed_indirect(
        &mut self,
        pipeline: u64,
        vertex_buffers: Vec<u64>,
        index_buffer: u64,
        index_format: &str,
        indirect_buffer: u64,
        indirect_offset: u32,
        color_attachments: Vec<u64>,
        clear_colors: Option<Vec<Vec<u64>>>,
        bind_groups: Option<Vec<u64>>,
        depth_stencil_attachment: Option<u64>,
        clear_depth: Option<u64>,
        resolve_targets: Option<Vec<u64>>,
    ) -> (r: Result<(), GpuError>)
        requires
            old(self)@.wf(),
        ensures
            final(self)@.wf(),
            r == direct_outcome(old(self)@),
            final(self)@ == after_inline_pass(
                old(self)@,
                EncoderEntry::RenderPass {
                    id: old(self)@.log.len() as u64,
                    setup: cleared_setup_view(
                        color_attachments@,
                        clear_colors,
                        resolve_targets,
                        depth_stencil_attachment,
                        clear_depth,
                    ),
                    commands: draw_setup_commands(pipeline, groups_or_none(bind_groups), vertex_buffers@).push(
                        inline_index_buffer(index_buffer, index_format@),
                    ).push(RenderCommand::DrawIndexedIndirect { buffer: indirect_buffer, offset: indirect_offset as u64 }),
                },
            ),
    {
        let setup = cleared_setup(&color_attachments, &clear_colors, &resolve_targets, depth_stencil_attachment, clear_depth);
        let mut pass = match self.begin_render_pass(setup) {
            Ok(p) => p,
            Err(e) => {
                return Err(e);
            },
        };
        let groups = groups_or_empty(bind_groups);
        record_draw_setup(&mut pass, pipeline, &groups, &vertex_buffers);
        let format = parse_index_format_lenient(index_format);
        let _ = pass.set_index_buffer_with_format(index_buffer, format, None, None);
        let _ = pass.draw_indexed_indirect(indirect_buffer, indirect_offset as u64);
        assert(pass@.commands =~= draw_setup_commands(pipeline, groups@, vertex_buffers@).push(
            inline_index_buffer(index_buffer, index_format@),
        ).push(RenderCommand::DrawIndexedIndirect { buffer: indirect_buffer, offset: indirect_offset as u64 }));
        pass.end(self)
    }

    /// Runs a render pass in one call that clears the colour targets and
    /// executes the given bundles.
    pub fn render_pass_bundles(
        &mut self,
        bundles: Vec<u64>,
        color_attachments: Vec<u64>,
        clear_colors: Option<Vec<Vec<u64>>>,
    ) -> (r: Result<(), GpuError>)
        requires
            old(self)@.wf(),
        ensures
            final(self)@.wf(),
            r == direct_outcome(old(self)@),
            final(self)@ == after_inline_pass(
                old(self)@,
                EncoderEntry::RenderPass {
                    id: old(self)@.log.len() as u64,
                    setup: cleared_setup_view(color_attachments@, clear_colors, None, None, None),
                    commands: seq![RenderCommand::ExecuteBundles { bundles }],
                },
            ),
    {
        let setup = cleared_setup(&color_attachments, &clear_colors, &None, None, None);
        let mut pass = match self.begin_render_pass(setup) {
            Ok(p) => p,
            Err(e) => {
                return Err(e);
            },
        };
        let _ = pass.execute_bundles(bundles);
        assert(pass@.commands =~= seq![RenderCommand::ExecuteBundles { bundles }]);
        pass.end(self)
    }

    /// Runs a whole compute pass in one call: sets the pipeline and the bind
    /// groups, dispatches the grid (absent dimensions are 1), and ends.
    pub fn compute_pass(
        &mut self,
        pipeline: u64,
        bind_groups: Vec<u64>,
        workgroups_x: u32,
        workgroups_y: Option<u32>,
        workgroups_z: Option<u32>,
    ) -> (r: Result<(), GpuError>)
        requires
            old(self)@.wf(),
        ensures
            final(self)@.wf(),
            r == direct_outcome(old(self)@),
            final(self)@ == after_inline_pass(
                old(self)@,
                EncoderEntry::ComputePass {
                    id: old(self)@.log.len() as u64,
                    compute_commands: compute_setup_commands(pipeline, bind_groups@).push(
                        ComputeCommand::Dispatch {
                            x: workgroups_x,
                            y: crate::session::or_default(workgroups_y, 1),
                            z: crate::session::or_default(workgroups_z, 1),
                        },
                    ),
                },
            ),
    {
        let mut pass = match self.begin_compute_pass() {
            Ok(p) => p,
            Err(e) => {
                return Err(e);
            },
        };
        record_compute_setup(&mut pass, pipeline, &bind_groups);
        let _ = pass.dispatch_workgroups(workgroups_x, workgroups_y, workgroups_z);
        pass.end(self)
    }

    /// Runs a whole compute pass in one call whose dispatch reads the grid
    /// from `indirect_buffer` at `indirect_offset`.
    pub fn compute_pass_indirect(
        &mut self,
        pipeline: u64,
        bind_groups: Vec<u64>,
        indirect_buffer: u64,
        indirect_offset: u32,
    ) -> (r: Result<(), GpuError>)
        requires
            old(self)@.wf(),
        ensures
            final(self)@.wf(),
            r == direct_outcome(old(self)@),
            final(self)@ == after_inline_pass(
                old(self)@,
                EncoderEntry::ComputePass {
                    id: old(self)@.log.len() as u64,
                    compute_commands: compute_setup_commands(pipeline, bind_groups@).push(
                        ComputeCommand::DispatchIndirect { buffer: indirect_buffer, offset: indirect_offset as u64 },
                    ),
                },
            ),
    {
        let mut pass = match self.begin_compute_pass() {
            Ok(p) => p,
            Err(e) => {
                return Err(e);
            },
        };
        record_compute_setup(&mut pass, pipeline, &bind_groups);
        let _ = pass.dispatch_workgroups_indirect(indirect_buffer, indirect_offset as u64);
        pass.end(self)
    }
}

} // verus!
