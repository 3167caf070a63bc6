use crystal_vk::device::physical_device::{Extent2D, SurfaceCapabilities, SurfaceFormat, SwapChainSupportDetails};
use crystal_vk::device::queue::QueueFamilyInfo;
use crystal_vk::image::{ImageInfo, ImageType, NoDepthFormat};
use crystal_vk::render::framebuffer::{framebuffer_attachment_views, needs_color_attachment};
use crystal_vk::render::render_pass::{AttachmentReference, RenderPassInfo, RenderPassPlan};
use crystal_vk::render::swapchain::{
    swapchain_extent_left_open, SwapchainConfigError, SwapchainCreatePlan, SwapchainInfo,
};
use crystal_vk::render::{sample_count_flag, select_samples, UnsupportedSampleCount};
use crystal_vk::vkraw;

fn families() -> Vec<QueueFamilyInfo> {
    vec![
        QueueFamilyInfo { flags: 0b10, index: 0, queue_count: 1, present_support: true },
        QueueFamilyInfo { flags: 0b11, index: 2, queue_count: 1, present_support: true },
    ]
}

fn support(modes: Vec<i32>, max_images: u32) -> SwapChainSupportDetails {
    SwapChainSupportDetails {
        formats: vec![
            SurfaceFormat { format: vkraw::FORMAT_B8G8R8A8_UNORM, color_space: 5 },
            SurfaceFormat {
                format: vkraw::FORMAT_B8G8R8A8_UNORM,
                color_space: vkraw::COLOR_SPACE_SRGB_NONLINEAR_KHR,
            },
        ],
        present_modes: modes,
        capabilities: SurfaceCapabilities {
            min_image_count: 2,
            max_image_count: max_images,
            current_extent: Extent2D { width: 1280, height: 720 },
            current_transform: 1,
        },
    }
}

#[test]
fn swapchain_info_choices() {
    let s = Some(support(vec![vkraw::PRESENT_MODE_FIFO_KHR, vkraw::PRESENT_MODE_MAILBOX_KHR], 3));
    let info = SwapchainInfo::new(&families(), &s, false).unwrap();
    assert_eq!(info.queue_family_indices, [2, 0]);
    assert_eq!(info.present_mode, vkraw::PRESENT_MODE_MAILBOX_KHR);
    assert_eq!(info.image_count, 3);
    assert_eq!(info.extent, Extent2D { width: 1280, height: 720 });
    assert_eq!(info.surface_format.color_space, vkraw::COLOR_SPACE_SRGB_NONLINEAR_KHR);
}

#[test]
fn swapchain_present_mode_without_mailbox() {
    let s = Some(support(vec![vkraw::PRESENT_MODE_FIFO_KHR], 0));
    let vsync = SwapchainInfo::new(&families(), &s, true).unwrap();
    assert_eq!(vsync.present_mode, vkraw::PRESENT_MODE_FIFO_KHR);
    assert_eq!(vsync.image_count, 2);
    let tearing = SwapchainInfo::new(&families(), &s, false).unwrap();
    assert_eq!(tearing.present_mode, vkraw::PRESENT_MODE_IMMEDIATE_KHR);
}

#[test]
fn swapchain_errors() {
    let s = Some(support(vec![], 0));
    let no_graphics = vec![QueueFamilyInfo { flags: 0b10, index: 0, queue_count: 1, present_support: true }];
    assert_eq!(SwapchainInfo::new(&no_graphics, &s, true).unwrap_err(), SwapchainConfigError::NoGraphicsQueue);
    let no_present = vec![QueueFamilyInfo { flags: 0b1, index: 0, queue_count: 1, present_support: false }];
    assert_eq!(SwapchainInfo::new(&no_present, &s, true).unwrap_err(), SwapchainConfigError::NoPresentQueue);
    assert_eq!(SwapchainInfo::new(&families(), &None, true).unwrap_err(), SwapchainConfigError::NoSurface);
    let mut bad = support(vec![], 0);
    bad.formats.remove(1);
    assert_eq!(
        SwapchainInfo::new(&families(), &Some(bad), true).unwrap_err(),
        SwapchainConfigError::NoSurfaceFormat
    );
}

#[test]
fn swapchain_extent_left_open_is_detected() {
    let mut s = support(vec![], 0);
    assert!(!swapchain_extent_left_open(&families(), &Some(s.clone())));
    s.capabilities.current_extent.width = u32::MAX;
    assert!(swapchain_extent_left_open(&families(), &Some(s.clone())));
    assert!(!swapchain_extent_left_open(&vec![], &Some(s)));
}

#[test]
fn swapchain_create_plan_shares_between_families() {
    let s = Some(support(vec![], 0));
    let info = SwapchainInfo::new(&families(), &s, true).unwrap();
    let plan = SwapchainCreatePlan::new(&info, 1, &vec![b"VK_KHR_swapchain".to_vec()]);
    assert_eq!(plan.image_sharing_mode, vkraw::SHARING_MODE_CONCURRENT);
    assert_eq!(plan.queue_family_indices, vec![2, 0]);
    assert_eq!(plan.image_usage, vkraw::IMAGE_USAGE_COLOR_ATTACHMENT | vkraw::IMAGE_USAGE_TRANSFER_DST);
    assert_eq!(plan.min_image_count, 2);
    assert!(plan.clipped);
    assert!(!plan.image_compression_control);
}

#[test]
fn swapchain_create_plan_asks_for_compression_when_enabled() {
    let one_family = vec![QueueFamilyInfo { flags: 1, index: 4, queue_count: 1, present_support: true }];
    let info = SwapchainInfo::new(&one_family, &Some(support(vec![], 0)), true).unwrap();
    let exts = vec![b"VK_KHR_swapchain".to_vec(), b"VK_EXT_image_compression_control_swapchain".to_vec()];
    let plan = SwapchainCreatePlan::new(&info, 8, &exts);
    assert!(plan.image_compression_control);
    assert_eq!(plan.image_sharing_mode, vkraw::SHARING_MODE_EXCLUSIVE);
    assert!(plan.queue_family_indices.is_empty());
    assert_eq!(plan.pre_transform, 8);
}

#[test]
fn render_pass_single_sampled_presented() {
    let info = RenderPassInfo { samples: vkraw::SAMPLE_COUNT_1, format: 44, present: true };
    let plan = RenderPassPlan::new(info, Some(vkraw::FORMAT_D32_SFLOAT_S8_UINT)).unwrap();
    assert_eq!(plan.attachments.len(), 2);
    assert_eq!(plan.attachments[0].final_layout, vkraw::IMAGE_LAYOUT_PRESENT_SRC_KHR);
    assert_eq!(plan.attachments[1].format, vkraw::FORMAT_D32_SFLOAT_S8_UINT);
    assert_eq!(plan.attachments[1].final_layout, vkraw::IMAGE_LAYOUT_DEPTH_STENCIL_ATTACHMENT_OPTIMAL);
    assert!(plan.resolve_attachments.is_empty());
    assert_eq!(plan.dependencies.len(), 2);
    assert_eq!(plan.dependencies[0].src_subpass, vkraw::SUBPASS_EXTERNAL);
    // law: the framebuffer has one view per attachment
    assert_eq!(framebuffer_attachment_views(info.samples, 1, 2, 3), vec![1, 2]);
}

#[test]
fn render_pass_multisampled_sampled_target() {
    let info = RenderPassInfo { samples: vkraw::SAMPLE_COUNT_4, format: 44, present: false };
    let plan = RenderPassPlan::new(info, Some(129)).unwrap();
    assert_eq!(plan.attachments.len(), 3);
    assert_eq!(plan.attachments[0].final_layout, vkraw::IMAGE_LAYOUT_COLOR_ATTACHMENT_OPTIMAL);
    assert_eq!(plan.attachments[2].samples, vkraw::SAMPLE_COUNT_1);
    assert_eq!(plan.attachments[2].final_layout, vkraw::IMAGE_LAYOUT_SHADER_READ_ONLY_OPTIMAL);
    assert_eq!(
        plan.resolve_attachments,
        vec![AttachmentReference { attachment: 2, layout: vkraw::IMAGE_LAYOUT_COLOR_ATTACHMENT_OPTIMAL }]
    );
    assert!(needs_color_attachment(info.samples));
    assert_eq!(framebuffer_attachment_views(info.samples, 1, 2, 3), vec![3, 2, 1]);
}

#[test]
fn render_pass_without_depth_format_is_refused() {
    let info = RenderPassInfo { samples: 1, format: 44, present: true };
    assert_eq!(RenderPassPlan::new(info, None), Err(NoDepthFormat));
}

#[test]
fn sample_counts() {
    assert_eq!(sample_count_flag(8), vkraw::SAMPLE_COUNT_8);
    assert_eq!(sample_count_flag(3), vkraw::SAMPLE_COUNT_1);
    assert_eq!(select_samples(4, 0b111, 0b101), Ok(vkraw::SAMPLE_COUNT_4));
    assert_eq!(select_samples(2, 0b111, 0b101), Err(UnsupportedSampleCount { msaa_samples: 2 }));
    assert_eq!(select_samples(0, 0b1, 0b1), Ok(vkraw::SAMPLE_COUNT_1));
}

#[test]
fn render_pass_info_for_swapchain_images() {
    let image = ImageInfo::swapchain([640, 480], 44);
    let info = RenderPassInfo::for_target(vkraw::SAMPLE_COUNT_2, &image);
    assert_eq!(info, RenderPassInfo { samples: 2, format: 44, present: true });
    let sampled = ImageInfo { typ: ImageType::Sampled, ..image };
    assert!(!RenderPassInfo::for_target(1, &sampled).present);
}
