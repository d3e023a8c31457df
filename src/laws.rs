use vstd::prelude::*;
use crate::commands::{
    apply_compute, apply_compute_all, apply_render, apply_render_all, entry_pass_id, finalizations,
    lemma_apply_compute_concat, lemma_apply_render_concat, render_bindings, ComputeBindings,
    ComputeCommand, EncoderEntry, RenderBindings, RenderCommand,
};
use crate::error::GpuError;
use crate::session::{
    after_begin, begin_outcome, compute_end_outcome, compute_step, encoder_after_compute_end,
    encoder_after_render_end, end_outcome, pass_after_compute_end, pass_after_render_end,
    record_compute, record_render, ComputePassView, EncoderState, EncoderView, RenderPassView,
};

verus! {

/// The handle after recording a sequence of commands, one call after another.
pub open spec fn record_render_all(p: RenderPassView, cs: Seq<RenderCommand>) -> RenderPassView
    decreases cs.len(),
{
    if cs.len() == 0 {
        p
    } else {
        record_render(record_render_all(p, cs.drop_last()), cs.last())
    }
}

/// Recording on an open pass keeps it open, keeps every earlier command and
/// appends the new ones in call order; the bindings in force afterwards are
/// the earlier bindings updated by each new command in turn, with no reset
/// in between.
pub proof fn law_recording_accumulates(p: RenderPassView, cs: Seq<RenderCommand>)
    requires
        p.open,
    ensures
        record_render_all(p, cs).open,
        record_render_all(p, cs).id == p.id,
        record_render_all(p, cs).commands == p.commands + cs,
        render_bindings(record_render_all(p, cs).commands) == apply_render_all(render_bindings(p.commands), cs),
    decreases cs.len(),
{
    if cs.len() == 0 {
        assert(p.commands + cs =~= p.commands);
    } else {
        law_recording_accumulates(p, cs.drop_last());
        assert(p.commands + cs =~= (p.commands + cs.drop_last()).push(cs.last()));
    }
    lemma_apply_render_concat(crate::commands::initial_bindings(), p.commands, cs);
}

/// A draw leaves every binding as it was, so the draws that follow it see
/// the same pipeline, buffers and dynamic state.
pub proof fn law_draws_keep_bindings(s: RenderBindings, c: RenderCommand)
    requires
        c is Draw || c is DrawIndexed || c is DrawIndirect || c is DrawIndexedIndirect,
    ensures
        apply_render(s, c) == s,
{
}

/// A later pipeline replaces an earlier one.
pub proof fn law_later_pipeline_wins(cs: Seq<RenderCommand>, pipeline: u64)
    ensures
        render_bindings(cs.push(RenderCommand::SetPipeline { pipeline })).pipeline == Some(pipeline),
{
    assert(cs.push(RenderCommand::SetPipeline { pipeline }).drop_last() =~= cs);
}

/// The compute handle after recording a sequence of commands, one call after another.
pub open spec fn record_compute_all(p: ComputePassView, cs: Seq<ComputeCommand>) -> ComputePassView
    decreases cs.len(),
{
    if cs.len() == 0 {
        p
    } else {
        record_compute(record_compute_all(p, cs.drop_last()), cs.last())
    }
}

/// Recording on an open compute pass keeps every earlier command and appends
/// the new ones in call order; the pipeline and bind groups in force
/// afterwards are the earlier ones updated by each new command in turn.
pub proof fn law_compute_recording_accumulates(p: ComputePassView, cs: Seq<ComputeCommand>, s: ComputeBindings)
    requires
        p.open,
    ensures
        record_compute_all(p, cs).open,
        record_compute_all(p, cs).id == p.id,
        record_compute_all(p, cs).commands == p.commands + cs,
        apply_compute_all(s, record_compute_all(p, cs).commands) == apply_compute_all(apply_compute_all(s, p.commands), cs),
    decreases cs.len(),
{
    if cs.len() == 0 {
        assert(p.commands + cs =~= p.commands);
    } else {
        law_compute_recording_accumulates(p, cs.drop_last(), s);
        assert(p.commands + cs =~= (p.commands + cs.drop_last()).push(cs.last()));
    }
    lemma_apply_compute_concat(s, p.commands, cs);
}

/// A dispatch leaves the pipeline and bind groups as they were.
pub proof fn law_dispatches_keep_bindings(s: ComputeBindings, c: ComputeCommand)
    requires
        c is Dispatch || c is DispatchIndirect,
    ensures
        apply_compute(s, c) == s,
{
}

/// An ended render pass takes no command: every recording operation leaves
/// it as it is.
pub proof fn law_ended_render_pass_is_inert(p: RenderPassView, c: RenderCommand)
    requires
        !p.open,
    ensures
        record_render(p, c) == p,
{
}

/// An ended compute pass takes no command and reports `SessionEnded`.
pub proof fn law_ended_compute_pass_is_inert(p: ComputePassView, c: ComputeCommand)
    requires
        !p.open,
    ensures
        record_compute(p, c) == p,
        compute_step(p) == Err::<(), GpuError>(GpuError::SessionEnded),
{
}

proof fn lemma_no_finalization_yet(log: Seq<EncoderEntry>, id: u64)
    requires
        forall|i: int|
            0 <= i < log.len() && #[trigger] entry_pass_id(log[i]).is_some()
                ==> entry_pass_id(log[i]).unwrap() == i,
        id >= log.len(),
    ensures
        finalizations(log, id) == 0,
    decreases log.len(),
{
    if log.len() > 0 {
        let prefix = log.drop_last();
        assert forall|i: int|
            0 <= i < prefix.len() && #[trigger] entry_pass_id(prefix[i]).is_some()
                implies entry_pass_id(prefix[i]).unwrap() == i by {
            assert(prefix[i] == log[i]);
        }
        lemma_no_finalization_yet(prefix, id);
        let last = log.len() - 1;
        assert(log.last() == log[last]);
        if entry_pass_id(log[last]).is_some() {
            assert(entry_pass_id(log[last]).unwrap() == last);
        }
    }
}

/// The open pass of a well-formed encoder has not been finalized yet.
pub proof fn lemma_open_pass_not_finalized(e: EncoderView, id: u64)
    requires
        e.wf(),
        e.state == (EncoderState::InPass { id }),
    ensures
        finalizations(e.log, id) == 0,
{
    lemma_no_finalization_yet(e.log, id);
}

proof fn lemma_finalizations_push(log: Seq<EncoderEntry>, x: EncoderEntry, id: u64)
    ensures
        finalizations(log.push(x), id) == finalizations(log, id) + if entry_pass_id(x) == Some(id) {
            1nat
        } else {
            0nat
        },
{
    assert(log.push(x).drop_last() =~= log);
}

/// Ending a render pass twice is safe: the first end finalizes the pass into
/// its encoder, the second is accepted and changes neither the handle nor
/// the encoder, and the encoder's log holds exactly one entry for the pass.
pub proof fn law_render_end_twice_finalizes_once(p: RenderPassView, e: EncoderView)
    requires
        e.wf(),
        p.open,
        e.state == (EncoderState::InPass { id: p.id }),
    ensures
        ({
            let p1 = pass_after_render_end(p, e);
            let e1 = encoder_after_render_end(p, e);
            &&& end_outcome(p, e) == Ok::<(), GpuError>(())
            &&& !p1.open
            &&& e1.state == EncoderState::Recording
            &&& end_outcome(p1, e1) == Ok::<(), GpuError>(())
            &&& pass_after_render_end(p1, e1) == p1
            &&& encoder_after_render_end(p1, e1) == e1
            &&& finalizations(e1.log, p.id) == 1
        }),
{
    lemma_open_pass_not_finalized(e, p.id);
    lemma_finalizations_push(e.log, crate::session::render_entry(p), p.id);
}

/// Releasing a render pass handle that was never ended finalizes its pass
/// exactly once; releasing one that was ended finalizes nothing more.
pub proof fn law_render_release_finalizes_once(p: RenderPassView, e: EncoderView)
    requires
        e.wf(),
        p.open,
        e.state == (EncoderState::InPass { id: p.id }),
    ensures
        finalizations(encoder_after_render_end(p, e).log, p.id) == 1,
        encoder_after_render_end(p, e).state == EncoderState::Recording,
        ({
            let e1 = encoder_after_render_end(p, e);
            let p1 = pass_after_render_end(p, e);
            encoder_after_render_end(p1, e1) == e1
        }),
{
    law_render_end_twice_finalizes_once(p, e);
}

/// Ending a compute pass twice is safe and finalizes it exactly once.
pub proof fn law_compute_end_twice_finalizes_once(p: ComputePassView, e: EncoderView)
    requires
        e.wf(),
        p.open,
        e.state == (EncoderState::InPass { id: p.id }),
    ensures
        ({
            let p1 = pass_after_compute_end(p, e);
            let e1 = encoder_after_compute_end(p, e);
            &&& compute_end_outcome(p, e) == Ok::<(), GpuError>(())
            &&& !p1.open
            &&& e1.state == EncoderState::Recording
            &&& compute_end_outcome(p1, e1) == Ok::<(), GpuError>(())
            &&& pass_after_compute_end(p1, e1) == p1
            &&& encoder_after_compute_end(p1, e1) == e1
            &&& finalizations(e1.log, p.id) == 1
        }),
{
    lemma_open_pass_not_finalized(e, p.id);
    lemma_finalizations_push(e.log, crate::session::compute_entry(p), p.id);
}

/// Releasing a compute pass handle that was never ended finalizes its pass
/// exactly once; releasing one that was ended finalizes nothing more.
pub proof fn law_compute_release_finalizes_once(p: ComputePassView, e: EncoderView)
    requires
        e.wf(),
        p.open,
        e.state == (EncoderState::InPass { id: p.id }),
    ensures
        finalizations(encoder_after_compute_end(p, e).log, p.id) == 1,
        encoder_after_compute_end(p, e).state == EncoderState::Recording,
        ({
            let e1 = encoder_after_compute_end(p, e);
            let p1 = pass_after_compute_end(p, e);
            encoder_after_compute_end(p1, e1) == e1
        }),
{
    law_compute_end_twice_finalizes_once(p, e);
}

/// While a pass is open, beginning another pass of either kind is refused
/// with `PassOpen` and leaves the encoder as it was.
pub proof fn law_one_open_pass(e: EncoderView)
    requires
        e.wf(),
        begin_outcome(e).is_ok(),
    ensures
        begin_outcome(after_begin(e)) == Err::<u64, GpuError>(GpuError::PassOpen),
        after_begin(after_begin(e)) == after_begin(e),
        after_begin(e).wf(),
{
}

} // verus!
