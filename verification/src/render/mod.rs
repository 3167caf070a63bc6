//! Render targets, render passes, framebuffers and the swapchain.
pub mod framebuffer;
pub mod render_pass;
pub mod swapchain;

use vstd::prelude::*;
use crate::image::{framebuffer_color_spec, framebuffer_depth_spec, ImageInfo, ImageType};
use crate::render::render_pass::{color_attachment_spec, depth_attachment_spec, multisampled, RenderPassInfo};
use crate::render::framebuffer::needs_color_attachment_spec;
use crate::vkraw::{
    SAMPLE_COUNT_1,
    SAMPLE_COUNT_16,
    SAMPLE_COUNT_2,
    SAMPLE_COUNT_32,
    SAMPLE_COUNT_4,
    SAMPLE_COUNT_64,
    SAMPLE_COUNT_8,
};

verus! {

/// The device cannot render with the requested number of samples.
#[derive(Clone, Copy, Debug, PartialEq, Eq, Structural)]
pub struct UnsupportedSampleCount {
    pub msaa_samples: u8,
}

/// The sample count flag for `msaa_samples`: the matching power of two from 2
/// to 64, one sample for anything else.
pub open spec fn sample_count_flag_spec(msaa_samples: u8) -> u32 {
    if msaa_samples == 2 {
        SAMPLE_COUNT_2
    } else if msaa_samples == 4 {
        SAMPLE_COUNT_4
    } else if msaa_samples == 8 {
        SAMPLE_COUNT_8
    } else if msaa_samples == 16 {
        SAMPLE_COUNT_16
    } else if msaa_samples == 32 {
        SAMPLE_COUNT_32
    } else if msaa_samples == 64 {
        SAMPLE_COUNT_64
    } else {
        SAMPLE_COUNT_1
    }
}

/// The sample count flag for `msaa_samples`.
pub fn sample_count_flag(msaa_samples: u8) -> (r: u32)
    ensures
        r == sample_count_flag_spec(msaa_samples),
{
    match msaa_samples {
        2 => SAMPLE_COUNT_2,
        4 => SAMPLE_COUNT_4,
        8 => SAMPLE_COUNT_8,
        16 => SAMPLE_COUNT_16,
        32 => SAMPLE_COUNT_32,
        64 => SAMPLE_COUNT_64,
        _ => SAMPLE_COUNT_1,
    }
}

/// A render target's sample count: accepted when both colour and depth
/// framebuffers of the device support it (`color_counts` and `depth_counts`
/// are the device's limits).
pub fn select_samples(msaa_samples: u8, color_counts: u32, depth_counts: u32) -> (r: Result<u32, UnsupportedSampleCount>)
    ensures
        sample_count_flag_spec(msaa_samples) & (color_counts & depth_counts) != 0 ==> r == Ok::<
            u32,
            UnsupportedSampleCount,
        >(sample_count_flag_spec(msaa_samples)),
        sample_count_flag_spec(msaa_samples) & (color_counts & depth_counts) == 0 ==> r == Err::<
            u32,
            UnsupportedSampleCount,
        >(UnsupportedSampleCount { msaa_samples }),
{
    let counts = color_counts & depth_counts;
    let samples = sample_count_flag(msaa_samples);
    if samples & counts == 0 {
        return Err(UnsupportedSampleCount { msaa_samples });
    }
    Ok(samples)
}

impl RenderPassInfo {
    /// The render pass of a render target that renders with `samples` into
    /// images like `first_image`: in its format, presented when it belongs to
    /// a swapchain.
    pub fn for_target(samples: u32, first_image: &ImageInfo) -> (r: Self)
        ensures
            r.samples == samples,
            r.format == first_image.format,
            r.present == (first_image.typ == ImageType::Swapchain),
    {
        RenderPassInfo {
            samples,
            format: first_image.format,
            present: first_image.typ == ImageType::Swapchain,
        }
    }
}


/// A render target's framebuffers have one view per attachment of its render
/// pass: they carry their own colour attachment exactly when the render pass
/// resolves a multisampled one (three attachments), and only the target and
/// depth otherwise (two).
pub proof fn law_framebuffer_matches_render_pass(info: RenderPassInfo)
    ensures
        needs_color_attachment_spec(info.samples) == multisampled(info),
{
}

/// The sample count flag asked for with `msaa_samples` samples is the
/// sample-count bit whose value is that number, for every count Vulkan
/// defines above one (2, 4, 8, 16, 32, 64); any other request renders with a
/// single sample. A request is accepted only with a flag that both colour
/// and depth framebuffers support.
pub proof fn law_sample_count_is_requested(msaa_samples: u8, color_counts: u32, depth_counts: u32)
    ensures
        (msaa_samples == 2 || msaa_samples == 4 || msaa_samples == 8 || msaa_samples == 16
            || msaa_samples == 32 || msaa_samples == 64) ==> sample_count_flag_spec(msaa_samples)
            == msaa_samples as u32,
        !(msaa_samples == 2 || msaa_samples == 4 || msaa_samples == 8 || msaa_samples == 16
            || msaa_samples == 32 || msaa_samples == 64) ==> sample_count_flag_spec(msaa_samples) == 1,
        sample_count_flag_spec(msaa_samples) & (color_counts & depth_counts) != 0 ==> sample_count_flag_spec(
            msaa_samples,
        ) & color_counts != 0 && sample_count_flag_spec(msaa_samples) & depth_counts != 0,
{
    let f = sample_count_flag_spec(msaa_samples);
    assert(f & (color_counts & depth_counts) != 0 ==> f & color_counts != 0 && f & depth_counts != 0)
        by (bit_vector);
}

/// The images a framebuffer creates match the render pass they are used in:
/// the multisampled colour image and the depth image have the render pass's
/// sample count, and the formats of its colour and depth attachments, and
/// both cover the target's extent.
pub proof fn law_framebuffer_images_match_attachments(info: RenderPassInfo, extent: [u32; 2], depth_format: i32)
    ensures
        framebuffer_color_spec(extent, info.format, info.samples).samples == info.samples,
        framebuffer_color_spec(extent, info.format, info.samples).samples == color_attachment_spec(info).samples,
        framebuffer_color_spec(extent, info.format, info.samples).format == color_attachment_spec(info).format,
        framebuffer_color_spec(extent, info.format, info.samples).width == extent[0],
        framebuffer_color_spec(extent, info.format, info.samples).height == extent[1],
        framebuffer_depth_spec(extent, depth_format, info.samples).samples == info.samples,
        framebuffer_depth_spec(extent, depth_format, info.samples).samples == depth_attachment_spec(
            info,
            depth_format,
        ).samples,
        framebuffer_depth_spec(extent, depth_format, info.samples).format == depth_attachment_spec(
            info,
            depth_format,
        ).format,
        framebuffer_depth_spec(extent, depth_format, info.samples).width == extent[0],
        framebuffer_depth_spec(extent, depth_format, info.samples).height == extent[1],
{
}

} // verus!
