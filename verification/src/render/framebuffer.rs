//! The attachments of each framebuffer of a render target.
use vstd::prelude::*;
use crate::vkraw::SAMPLE_COUNT_1;

verus! {

/// With multisampling, each framebuffer has its own multisampled colour
/// attachment.
pub open spec fn needs_color_attachment_spec(samples: u32) -> bool {
    samples != SAMPLE_COUNT_1
}

/// Whether framebuffers rendered with `samples` samples need a colour
/// attachment of their own.
pub fn needs_color_attachment(samples: u32) -> (r: bool)
    ensures
        r == needs_color_attachment_spec(samples),
{
    samples != SAMPLE_COUNT_1
}

/// The image views of one framebuffer, in attachment order: the
/// multisampled colour view, the depth view and the target's view; without
/// multisampling the target's view, then the depth view.
pub fn framebuffer_attachment_views(samples: u32, target_view: u64, depth_view: u64, color_view: u64) -> (r: Vec<u64>)
    ensures
        needs_color_attachment_spec(samples) ==> r@ == seq![color_view, depth_view, target_view],
        !needs_color_attachment_spec(samples) ==> r@ == seq![target_view, depth_view],
{
    let r = if samples != SAMPLE_COUNT_1 {
        vec![color_view, depth_view, target_view]
    } else {
        vec![target_view, depth_view]
    };
    assert(needs_color_attachment_spec(samples) ==> r@ =~= seq![color_view, depth_view, target_view]);
    assert(!needs_color_attachment_spec(samples) ==> r@ =~= seq![target_view, depth_view]);
    r
}

} // verus!
