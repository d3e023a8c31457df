use vstd::prelude::*;
use crate::commands::{
    ColorAttachment, ColorBits, DepthAttachment, DepthLoadOp, LoadOp, RenderPassSetup, SetupView,
    StencilLoadOp, StencilOps, StoreOp, ONE_BITS,
};
use crate::descriptors::{RenderPassColorAttachment, RenderPassDepthStencilAttachment, RenderPassDescriptor};
use crate::error::GpuError;
use crate::session::{after_begin, begin_outcome, opened_render, GpuCommandEncoder, GpuRenderPassEncoder};
use crate::text::{option_text_is, same_text};

verus! {

/// Transparent black, the clear colour when none is given.
pub open spec fn transparent_black() -> ColorBits {
    ColorBits { r: 0, g: 0, b: 0, a: 0 }
}

/// A colour attachment drawing into `view`: its old contents kept when the
/// load operation is `load` and cleared otherwise, what is drawn discarded
/// when the store operation is `discard` and stored otherwise.
pub open spec fn color_attachment_of(view: u64, a: RenderPassColorAttachment) -> ColorAttachment {
    ColorAttachment {
        view,
        resolve_target: None,
        load: if a.load_op@ == "load"@ {
            LoadOp::Load
        } else {
            LoadOp::Clear {
                color: match a.clear_value {
                    Some(c) => c,
                    None => transparent_black(),
                },
            }
        },
        store: if a.store_op@ == "discard"@ {
            StoreOp::Discard
        } else {
            StoreOp::Store
        },
    }
}

/// The stencil operations of a depth-stencil attachment, present when a
/// stencil load operation is given: kept when it is `load`, cleared
/// otherwise (to 0 unless a value is given); discarded when the store
/// operation is `discard`, stored otherwise.
pub open spec fn stencil_ops_of(d: RenderPassDepthStencilAttachment) -> Option<StencilOps> {
    match d.stencil_load_op {
        Some(l) => Some(
            StencilOps {
                load: if l@ == "load"@ {
                    StencilLoadOp::Load
                } else {
                    StencilLoadOp::Clear {
                        value: match d.stencil_clear_value {
                            Some(v) => v,
                            None => 0,
                        },
                    }
                },
                store: if d.stencil_store_op.is_some() && d.stencil_store_op.unwrap()@ == "discard"@ {
                    StoreOp::Discard
                } else {
                    StoreOp::Store
                },
            },
        ),
        None => None,
    }
}

/// The depth attachment drawing into `view`: kept when the load operation is
/// `load`, cleared otherwise (to 1.0 unless a value is given); discarded when
/// the store operation is `discard`, stored otherwise.
pub open spec fn depth_attachment_of(view: u64, d: RenderPassDepthStencilAttachment) -> DepthAttachment {
    DepthAttachment {
        view,
        load: if d.depth_load_op.is_some() && d.depth_load_op.unwrap()@ == "load"@ {
            DepthLoadOp::Load
        } else {
            DepthLoadOp::Clear {
                value: match d.depth_clear_value {
                    Some(v) => v,
                    None => ONE_BITS,
                },
            }
        },
        store: if d.depth_store_op.is_some() && d.depth_store_op.unwrap()@ == "discard"@ {
            StoreOp::Discard
        } else {
            StoreOp::Store
        },
        stencil: stencil_ops_of(d),
    }
}

/// The targets a descriptor describes with the given views, or `None` when
/// the views do not match the attachments.
pub open spec fn setup_of(descriptor: RenderPassDescriptor, views: Seq<u64>, depth_view: Option<u64>) -> Option<SetupView> {
    if views.len() != descriptor.color_attachments@.len() || descriptor.depth_stencil_attachment.is_some()
        != depth_view.is_some() {
        None
    } else {
        Some(
            SetupView {
                color_attachments: Seq::new(
                    views.len(),
                    |i: int| color_attachment_of(views[i], descriptor.color_attachments@[i]),
                ),
                depth: match depth_view {
                    Some(v) => Some(depth_attachment_of(v, descriptor.depth_stencil_attachment.unwrap())),
                    None => None,
                },
            },
        )
    }
}

fn resolve_color_attachment(view: u64, a: &RenderPassColorAttachment) -> (r: ColorAttachment)
    ensures
        r == color_attachment_of(view, *a),
{
    let load = if same_text(a.load_op.as_str(), "load") {
        LoadOp::Load
    } else {
        LoadOp::Clear {
            color: match a.clear_value {
                Some(c) => c,
                None => ColorBits { r: 0, g: 0, b: 0, a: 0 },
            },
        }
    };
    let store = if same_text(a.store_op.as_str(), "discard") {
        StoreOp::Discard
    } else {
        StoreOp::Store
    };
    ColorAttachment { view, resolve_target: None, load, store }
}

fn resolve_depth_attachment(view: u64, d: &RenderPassDepthStencilAttachment) -> (r: DepthAttachment)
    ensures
        r == depth_attachment_of(view, *d),
{
    let load = if option_text_is(&d.depth_load_op, "load") {
        DepthLoadOp::Load
    } else {
        DepthLoadOp::Clear {
            value: match d.depth_clear_value {
                Some(v) => v,
                None => ONE_BITS,
            },
        }
    };
    let store = if option_text_is(&d.depth_store_op, "discard") {
        StoreOp::Discard
    } else {
        StoreOp::Store
    };
    let stencil = match &d.stencil_load_op {
        Some(l) => {
            let load = if same_text(l.as_str(), "load") {
                StencilLoadOp::Load
            } else {
                StencilLoadOp::Clear {
                    value: match d.stencil_clear_value {
                        Some(v) => v,
                        None => 0,
                    },
                }
            };
            let store = if option_text_is(&d.stencil_store_op, "discard") {
                StoreOp::Discard
            } else {
                StoreOp::Store
            };
            Some(StencilOps { load, store })
        },
        None => None,
    };
    DepthAttachment { view, load, store, stencil }
}

/// Builds the targets of a render pass from its descriptor and views.
pub fn resolve_attachments(descriptor: &RenderPassDescriptor, views: &Vec<u64>, depth_view: Option<u64>) -> (r: Option<RenderPassSetup>)
    ensures
        match r {
            Some(s) => setup_of(*descriptor, views@, depth_view) == Some(s@),
            None => setup_of(*descriptor, views@, depth_view).is_none(),
        },
{
    if views.len() != descriptor.color_attachments.len()
        || descriptor.depth_stencil_attachment.is_some() != depth_view.is_some() {
        return None;
    }
    let mut out: Vec<ColorAttachment> = Vec::new();
    let mut i: usize = 0;
    while i < views.len()
        invariant
            i <= views@.len(),
            views@.len() == descriptor.color_attachments@.len(),
            out@.len() == i,
            forall|j: int|
                0 <= j < i ==> #[trigger] out@[j] == color_attachment_of(views@[j], descriptor.color_attachments@[j]),
        decreases views@.len() - i,
    {
        out.push(resolve_color_attachment(views[i], &descriptor.color_attachments[i]));
        i = i + 1;
    }
    let depth = match depth_view {
        Some(v) => match &descriptor.depth_stencil_attachment {
            Some(d) => Some(resolve_depth_attachment(v, d)),
            None => None,
        },
        None => None,
    };
    let s = RenderPassSetup { color_attachments: out, depth };
    assert(s@.color_attachments =~= setup_of(*descriptor, views@, depth_view).unwrap().color_attachments);
    Some(s)
}

impl GpuCommandEncoder {
    /// Begins a render pass with the targets a descriptor describes, one
    /// colour view per colour attachment and a depth view exactly when it
    /// describes a depth attachment.
    pub fn begin_render_pass_with(
        &mut self,
        descriptor: &RenderPassDescriptor,
        color_views: &Vec<u64>,
        depth_view: Option<u64>,
    ) -> (r: Result<GpuRenderPassEncoder, GpuError>)
        requires
            old(self)@.wf(),
        ensures
            final(self)@.wf(),
            match setup_of(*descriptor, color_views@, depth_view) {
                None => r == Err::<GpuRenderPassEncoder, GpuError>(GpuError::AttachmentMismatch)
                    && final(self)@ == old(self)@,
                Some(setup) => {
                    &&& final(self)@ == after_begin(old(self)@)
                    &&& match begin_outcome(old(self)@) {
                        Ok(id) => r.is_ok() && r.unwrap()@ == opened_render(id, setup),
                        Err(err) => r == Err::<GpuRenderPassEncoder, GpuError>(err),
                    }
                },
            },
    {
        match resolve_attachments(descriptor, color_views, depth_view) {
            Some(setup) => self.begin_render_pass(setup),
            None => Err(GpuError::AttachmentMismatch),
        }
    }
}

} // verus!
