//! The render pass the library builds for a render target.
use vstd::prelude::*;
use crate::vkraw::{
    ACCESS_COLOR_ATTACHMENT_WRITE,
    ACCESS_DEPTH_STENCIL_ATTACHMENT_READ,
    ACCESS_DEPTH_STENCIL_ATTACHMENT_WRITE,
    ACCESS_NONE,
    ATTACHMENT_LOAD_OP_CLEAR,
    ATTACHMENT_LOAD_OP_DONT_CARE,
    ATTACHMENT_STORE_OP_DONT_CARE,
    ATTACHMENT_STORE_OP_STORE,
    IMAGE_LAYOUT_COLOR_ATTACHMENT_OPTIMAL,
    IMAGE_LAYOUT_DEPTH_STENCIL_ATTACHMENT_OPTIMAL,
    IMAGE_LAYOUT_PRESENT_SRC_KHR,
    IMAGE_LAYOUT_SHADER_READ_ONLY_OPTIMAL,
    IMAGE_LAYOUT_UNDEFINED,
    PIPELINE_BIND_POINT_GRAPHICS,
    PIPELINE_STAGE_BOTTOM_OF_PIPE,
    PIPELINE_STAGE_COLOR_ATTACHMENT_OUTPUT,
    PIPELINE_STAGE_EARLY_FRAGMENT_TESTS,
    PIPELINE_STAGE_TOP_OF_PIPE,
    SAMPLE_COUNT_1,
    SUBPASS_EXTERNAL,
};
use crate::image::NoDepthFormat;

verus! {

/// What a render pass is made for.
#[derive(Clone, Copy, Debug, PartialEq, Eq, Structural)]
pub struct RenderPassInfo {
    /// `VkSampleCountFlagBits` of the colour and depth attachments.
    pub samples: u32,
    /// `VkFormat` of the colour attachment.
    pub format: i32,
    /// Whether the images are presented (else they are sampled afterwards).
    pub present: bool,
}

/// A `VkAttachmentDescription`.
#[derive(Clone, Copy, Debug, PartialEq, Eq, Structural)]
pub struct AttachmentDescription {
    pub format: i32,
    pub samples: u32,
    pub load_op: i32,
    pub store_op: i32,
    pub stencil_load_op: i32,
    pub stencil_store_op: i32,
    pub initial_layout: i32,
    pub final_layout: i32,
}

/// A `VkAttachmentReference`.
#[derive(Clone, Copy, Debug, PartialEq, Eq, Structural)]
pub struct AttachmentReference {
    pub attachment: u32,
    pub layout: i32,
}

/// A `VkSubpassDependency`.
#[derive(Clone, Copy, Debug, PartialEq, Eq, Structural)]
pub struct SubpassDependency {
    pub src_subpass: u32,
    pub dst_subpass: u32,
    pub src_stage_mask: u32,
    pub dst_stage_mask: u32,
    pub src_access_mask: u32,
    pub dst_access_mask: u32,
}

/// The render pass: its attachments, one graphics subpass and its two
/// external dependencies.
#[derive(Clone, Debug, PartialEq, Eq)]
pub struct RenderPassPlan {
    pub attachments: Vec<AttachmentDescription>,
    pub color_attachment: AttachmentReference,
    pub depth_attachment: AttachmentReference,
    /// Empty without multisampling.
    pub resolve_attachments: Vec<AttachmentReference>,
    pub pipeline_bind_point: i32,
    pub dependencies: Vec<SubpassDependency>,
}

/// The layout the presented or sampled image ends in.
pub open spec fn target_final_layout(info: RenderPassInfo) -> i32 {
    if info.present {
        IMAGE_LAYOUT_PRESENT_SRC_KHR
    } else {
        IMAGE_LAYOUT_SHADER_READ_ONLY_OPTIMAL
    }
}

pub open spec fn multisampled(info: RenderPassInfo) -> bool {
    info.samples != SAMPLE_COUNT_1
}

/// The colour attachment: cleared and stored; with multisampling it stays a
/// colour attachment and is resolved into the target.
pub open spec fn color_attachment_spec(info: RenderPassInfo) -> AttachmentDescription {
    AttachmentDescription {
        format: info.format,
        samples: info.samples,
        load_op: ATTACHMENT_LOAD_OP_CLEAR,
        store_op: ATTACHMENT_STORE_OP_STORE,
        stencil_load_op: ATTACHMENT_LOAD_OP_DONT_CARE,
        stencil_store_op: ATTACHMENT_STORE_OP_DONT_CARE,
        initial_layout: IMAGE_LAYOUT_UNDEFINED,
        final_layout: if multisampled(info) {
            IMAGE_LAYOUT_COLOR_ATTACHMENT_OPTIMAL
        } else {
            target_final_layout(info)
        },
    }
}

/// The depth attachment: cleared, not stored.
pub open spec fn depth_attachment_spec(info: RenderPassInfo, depth_format: i32) -> AttachmentDescription {
    AttachmentDescription {
        format: depth_format,
        samples: info.samples,
        load_op: ATTACHMENT_LOAD_OP_CLEAR,
        store_op: ATTACHMENT_STORE_OP_DONT_CARE,
        stencil_load_op: ATTACHMENT_LOAD_OP_DONT_CARE,
        stencil_store_op: ATTACHMENT_STORE_OP_DONT_CARE,
        initial_layout: IMAGE_LAYOUT_UNDEFINED,
        final_layout: IMAGE_LAYOUT_DEPTH_STENCIL_ATTACHMENT_OPTIMAL,
    }
}

/// The single-sampled attachment that a multisampled colour attachment is
/// resolved into.
pub open spec fn resolve_attachment_spec(info: RenderPassInfo) -> AttachmentDescription {
    AttachmentDescription {
        format: info.format,
        samples: SAMPLE_COUNT_1,
        load_op: ATTACHMENT_LOAD_OP_DONT_CARE,
        store_op: ATTACHMENT_STORE_OP_STORE,
        stencil_load_op: ATTACHMENT_LOAD_OP_DONT_CARE,
        stencil_store_op: ATTACHMENT_STORE_OP_DONT_CARE,
        initial_layout: IMAGE_LAYOUT_UNDEFINED,
        final_layout: target_final_layout(info),
    }
}

pub open spec fn external_dependencies() -> Seq<SubpassDependency> {
    seq![
        SubpassDependency {
            src_subpass: SUBPASS_EXTERNAL,
            dst_subpass: 0,
            src_stage_mask: PIPELINE_STAGE_TOP_OF_PIPE,
            dst_stage_mask: PIPELINE_STAGE_COLOR_ATTACHMENT_OUTPUT | PIPELINE_STAGE_EARLY_FRAGMENT_TESTS,
            src_access_mask: ACCESS_NONE,
            dst_access_mask: ACCESS_COLOR_ATTACHMENT_WRITE | ACCESS_DEPTH_STENCIL_ATTACHMENT_READ
                | ACCESS_DEPTH_STENCIL_ATTACHMENT_WRITE,
        },
        SubpassDependency {
            src_subpass: 0,
            dst_subpass: SUBPASS_EXTERNAL,
            src_stage_mask: PIPELINE_STAGE_COLOR_ATTACHMENT_OUTPUT,
            dst_stage_mask: PIPELINE_STAGE_BOTTOM_OF_PIPE,
            src_access_mask: ACCESS_COLOR_ATTACHMENT_WRITE,
            dst_access_mask: ACCESS_NONE,
        },
    ]
}

/// The attachments of the render pass for `info`: colour and depth, then,
/// with multisampling, the single-sampled attachment it resolves into.
pub open spec fn attachments_spec(info: RenderPassInfo, depth_format: i32) -> Seq<AttachmentDescription> {
    if multisampled(info) {
        seq![
            color_attachment_spec(info),
            depth_attachment_spec(info, depth_format),
            resolve_attachment_spec(info),
        ]
    } else {
        seq![color_attachment_spec(info), depth_attachment_spec(info, depth_format)]
    }
}

impl RenderPassPlan {
    /// The render pass for `info`, with the depth format found for the device
    /// (`None`: there is none, which is refused).
    pub fn new(info: RenderPassInfo, depth_format: Option<i32>) -> (r: Result<Self, NoDepthFormat>)
        ensures
            depth_format is None ==> r is Err,
            depth_format matches Some(df) ==> (r matches Ok(plan) && {
                &&& plan.attachments@ == attachments_spec(info, df)
                &&& plan.color_attachment == AttachmentReference { attachment: 0, layout: IMAGE_LAYOUT_COLOR_ATTACHMENT_OPTIMAL }
                &&& plan.depth_attachment == AttachmentReference { attachment: 1, layout: IMAGE_LAYOUT_DEPTH_STENCIL_ATTACHMENT_OPTIMAL }
                &&& plan.resolve_attachments@ == if multisampled(info) {
                    seq![AttachmentReference { attachment: 2, layout: IMAGE_LAYOUT_COLOR_ATTACHMENT_OPTIMAL }]
                } else {
                    Seq::empty()
                }
                &&& plan.pipeline_bind_point == PIPELINE_BIND_POINT_GRAPHICS
                &&& plan.dependencies@ == external_dependencies()
            }),
    {
        let final_layout = if info.present {
            IMAGE_LAYOUT_PRESENT_SRC_KHR
        } else {
            IMAGE_LAYOUT_SHADER_READ_ONLY_OPTIMAL
        };
        let multisampled = info.samples != SAMPLE_COUNT_1;
        let color = AttachmentDescription {
            format: info.format,
            samples: info.samples,
            load_op: ATTACHMENT_LOAD_OP_CLEAR,
            store_op: ATTACHMENT_STORE_OP_STORE,
            stencil_load_op: ATTACHMENT_LOAD_OP_DONT_CARE,
            stencil_store_op: ATTACHMENT_STORE_OP_DONT_CARE,
            initial_layout: IMAGE_LAYOUT_UNDEFINED,
            final_layout: if multisampled {
                IMAGE_LAYOUT_COLOR_ATTACHMENT_OPTIMAL
            } else {
                final_layout
            },
        };
        let depth_format = match depth_format {
            Some(f) => f,
            None => return Err(NoDepthFormat),
        };
        let depth = AttachmentDescription {
            format: depth_format,
            samples: info.samples,
            load_op: ATTACHMENT_LOAD_OP_CLEAR,
            store_op: ATTACHMENT_STORE_OP_DONT_CARE,
            stencil_load_op: ATTACHMENT_LOAD_OP_DONT_CARE,
            stencil_store_op: ATTACHMENT_STORE_OP_DONT_CARE,
            initial_layout: IMAGE_LAYOUT_UNDEFINED,
            final_layout: IMAGE_LAYOUT_DEPTH_STENCIL_ATTACHMENT_OPTIMAL,
        };
        let resolve = AttachmentDescription {
            format: info.format,
            samples: SAMPLE_COUNT_1,
            load_op: ATTACHMENT_LOAD_OP_DONT_CARE,
            store_op: ATTACHMENT_STORE_OP_STORE,
            stencil_load_op: ATTACHMENT_LOAD_OP_DONT_CARE,
            stencil_store_op: ATTACHMENT_STORE_OP_DONT_CARE,
            initial_layout: IMAGE_LAYOUT_UNDEFINED,
            final_layout,
        };
        let mut attachments = vec![color, depth];
        if multisampled {
            attachments.push(resolve);
        }
        let mut resolve_attachments: Vec<AttachmentReference> = Vec::new();
        if multisampled {
            resolve_attachments.push(
                AttachmentReference { attachment: 2, layout: IMAGE_LAYOUT_COLOR_ATTACHMENT_OPTIMAL },
            );
        }
        let dependencies = vec![
            SubpassDependency {
                src_subpass: SUBPASS_EXTERNAL,
                dst_subpass: 0,
                src_stage_mask: PIPELINE_STAGE_TOP_OF_PIPE,
                dst_stage_mask: PIPELINE_STAGE_COLOR_ATTACHMENT_OUTPUT
                    | PIPELINE_STAGE_EARLY_FRAGMENT_TESTS,
                src_access_mask: ACCESS_NONE,
                dst_access_mask: ACCESS_COLOR_ATTACHMENT_WRITE | ACCESS_DEPTH_STENCIL_ATTACHMENT_READ
                    | ACCESS_DEPTH_STENCIL_ATTACHMENT_WRITE,
            },
            SubpassDependency {
                src_subpass: 0,
                dst_subpass: SUBPASS_EXTERNAL,
                src_stage_mask: PIPELINE_STAGE_COLOR_ATTACHMENT_OUTPUT,
                dst_stage_mask: PIPELINE_STAGE_BOTTOM_OF_PIPE,
                src_access_mask: ACCESS_COLOR_ATTACHMENT_WRITE,
                dst_access_mask: ACCESS_NONE,
            },
        ];
        proof {
            assert(dependencies@ =~= external_dependencies());
            if multisampled {
                assert(attachments@ =~= seq![color_attachment_spec(info), depth_attachment_spec(info, depth_format), resolve_attachment_spec(info)]);
                assert(resolve_attachments@ =~= seq![AttachmentReference { attachment: 2, layout: IMAGE_LAYOUT_COLOR_ATTACHMENT_OPTIMAL }]);
            } else {
                assert(attachments@ =~= seq![color_attachment_spec(info), depth_attachment_spec(info, depth_format)]);
                assert(resolve_attachments@ =~= Seq::<AttachmentReference>::empty());
            }
        }
        Ok(RenderPassPlan {
            attachments,
            color_attachment: AttachmentReference {
                attachment: 0,
                layout: IMAGE_LAYOUT_COLOR_ATTACHMENT_OPTIMAL,
            },
            depth_attachment: AttachmentReference {
                attachment: 1,
                layout: IMAGE_LAYOUT_DEPTH_STENCIL_ATTACHMENT_OPTIMAL,
            },
            resolve_attachments,
            pipeline_bind_point: PIPELINE_BIND_POINT_GRAPHICS,
            dependencies,
        })
    }
}

/// The image the render pass writes for its target is the colour attachment
/// (attachment 0) when single-sampled, and the resolve attachment
/// (attachment 2, the last) when multisampled. That attachment has the target's format and one sample,
/// is stored, and ends in the present layout when the target is presented
/// and in the shader read layout otherwise, whatever the sample count. With
/// multisampling the colour attachment renders with the requested samples
/// and stays a colour attachment.
pub proof fn law_target_attachment_ends_ready(info: RenderPassInfo, depth_format: i32)
    ensures
        ({
            let atts = attachments_spec(info, depth_format);
            let target = if info.samples == SAMPLE_COUNT_1 {
                atts[0]
            } else {
                atts[2]
            };
            &&& atts.len() == if info.samples == SAMPLE_COUNT_1 { 2int } else { 3int }
            &&& target.format == info.format
            &&& target.store_op == ATTACHMENT_STORE_OP_STORE
            &&& info.samples != SAMPLE_COUNT_1 ==> target.samples == SAMPLE_COUNT_1
            &&& info.samples == SAMPLE_COUNT_1 ==> target.samples == info.samples
            &&& info.present ==> target.final_layout == IMAGE_LAYOUT_PRESENT_SRC_KHR
            &&& !info.present ==> target.final_layout == IMAGE_LAYOUT_SHADER_READ_ONLY_OPTIMAL
            &&& atts[0].samples == info.samples
            &&& atts[0].format == info.format
            &&& info.samples != SAMPLE_COUNT_1 ==> atts[0].final_layout == IMAGE_LAYOUT_COLOR_ATTACHMENT_OPTIMAL
            &&& atts[1].format == depth_format
            &&& atts[1].samples == info.samples
        }),
{
    let atts = attachments_spec(info, depth_format);
    if multisampled(info) {
        assert(atts.len() == 3);
        assert(atts[0] == color_attachment_spec(info));
        assert(atts[1] == depth_attachment_spec(info, depth_format));
        assert(atts[2] == resolve_attachment_spec(info));
    } else {
        assert(atts.len() == 2);
        assert(atts[0] == color_attachment_spec(info));
        assert(atts[1] == depth_attachment_spec(info, depth_format));
    }
}

} // verus!
