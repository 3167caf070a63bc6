//! The swapchain configuration that the library chooses.
use vstd::prelude::*;
use crate::device::physical_device::{Extent2D, SurfaceCapabilities, SurfaceFormat, SwapChainSupportDetails};
use crate::device::queue::QueueFamilyInfo;
use crate::device::physical_device::{contains_name, has_name, name_views};
use vstd::string::StringSliceAdditionalSpecFns;
use crate::seqs::{first_where, lemma_first_where_found, lemma_first_where_none};
use crate::vkraw::{
    COLOR_SPACE_SRGB_NONLINEAR_KHR,
    COMPOSITE_ALPHA_OPAQUE_KHR,
    FORMAT_B8G8R8A8_UNORM,
    IMAGE_USAGE_COLOR_ATTACHMENT,
    IMAGE_USAGE_TRANSFER_DST,
    PRESENT_MODE_FIFO_KHR,
    PRESENT_MODE_IMMEDIATE_KHR,
    PRESENT_MODE_MAILBOX_KHR,
    QUEUE_GRAPHICS,
    SHARING_MODE_CONCURRENT,
    SHARING_MODE_EXCLUSIVE,
};

verus! {

/// Why no swapchain can be configured for a device.
#[derive(Clone, Copy, Debug, PartialEq, Eq, Structural)]
pub enum SwapchainConfigError {
    /// No queue family supports graphics.
    NoGraphicsQueue,
    /// No queue family can present to the surface.
    NoPresentQueue,
    /// The device was made without a surface.
    NoSurface,
    /// The surface does not offer the B8G8R8A8 UNORM, sRGB non-linear format.
    NoSurfaceFormat,
}

/// The choices the library makes for a swapchain.
#[derive(Clone, Copy, Debug, PartialEq, Eq)]
pub struct SwapchainInfo {
    /// The graphics and the presentation queue family.
    pub queue_family_indices: [u32; 2],
    pub extent: Extent2D,
    pub present_mode: i32,
    pub vsync: bool,
    pub image_count: u32,
    pub surface_format: SurfaceFormat,
}

pub open spec fn supports_graphics(f: QueueFamilyInfo) -> bool {
    f.flags & QUEUE_GRAPHICS != 0
}

pub open spec fn supports_present(f: QueueFamilyInfo) -> bool {
    f.present_support
}

pub open spec fn is_required_format(f: SurfaceFormat) -> bool {
    f.format == FORMAT_B8G8R8A8_UNORM && f.color_space == COLOR_SPACE_SRGB_NONLINEAR_KHR
}

/// The index of the first family that `p` accepts.
pub open spec fn first_family_index(families: Seq<QueueFamilyInfo>, p: spec_fn(QueueFamilyInfo) -> bool) -> Option<u32> {
    match first_where(families, p) {
        Some(i) => Some(families[i].index),
        None => None,
    }
}

/// The first surface format that is B8G8R8A8 UNORM in the sRGB non-linear
/// colour space.
pub open spec fn required_surface_format(formats: Seq<SurfaceFormat>) -> Option<SurfaceFormat> {
    match first_where(formats, |f: SurfaceFormat| is_required_format(f)) {
        Some(i) => Some(formats[i]),
        None => None,
    }
}

/// The most images the surface allows, or its minimum when it sets no maximum.
pub open spec fn swapchain_image_count(caps: SurfaceCapabilities) -> u32 {
    if caps.max_image_count > 0 {
        caps.max_image_count
    } else {
        caps.min_image_count
    }
}

/// Mailbox when the surface offers it; otherwise FIFO with vsync and
/// immediate without.
pub open spec fn swapchain_present_mode(modes: Seq<i32>, vsync: bool) -> i32 {
    if modes.contains(PRESENT_MODE_MAILBOX_KHR) {
        PRESENT_MODE_MAILBOX_KHR
    } else if vsync {
        PRESENT_MODE_FIFO_KHR
    } else {
        PRESENT_MODE_IMMEDIATE_KHR
    }
}

/// The library has every choice but the extent, and the surface leaves the
/// extent to the application (`currentExtent.width` is `u32::MAX`), which the
/// library does not handle.
pub open spec fn extent_left_open(families: Seq<QueueFamilyInfo>, support: Option<SwapChainSupportDetails>) -> bool {
    &&& first_family_index(families, |f: QueueFamilyInfo| supports_graphics(f)) is Some
    &&& first_family_index(families, |f: QueueFamilyInfo| supports_present(f)) is Some
    &&& support matches Some(s) && required_surface_format(s.formats@) is Some
        && s.capabilities.current_extent.width == u32::MAX
}

/// What `SwapchainInfo::new` decides for `families`, `support` and `vsync`.
pub open spec fn swapchain_info_spec(
    families: Seq<QueueFamilyInfo>,
    support: Option<SwapChainSupportDetails>,
    vsync: bool,
) -> Result<SwapchainInfo, SwapchainConfigError> {
    match first_family_index(families, |f: QueueFamilyInfo| supports_graphics(f)) {
        None => Err(SwapchainConfigError::NoGraphicsQueue),
        Some(graphics) => match first_family_index(families, |f: QueueFamilyInfo| supports_present(f)) {
            None => Err(SwapchainConfigError::NoPresentQueue),
            Some(present) => match support {
                None => Err(SwapchainConfigError::NoSurface),
                Some(s) => match required_surface_format(s.formats@) {
                    None => Err(SwapchainConfigError::NoSurfaceFormat),
                    Some(format) => Ok(
                        SwapchainInfo {
                            queue_family_indices: [graphics, present],
                            extent: s.capabilities.current_extent,
                            present_mode: swapchain_present_mode(s.present_modes@, vsync),
                            vsync,
                            image_count: swapchain_image_count(s.capabilities),
                            surface_format: format,
                        },
                    ),
                },
            },
        },
    }
}

fn first_graphics_family(families: &Vec<QueueFamilyInfo>) -> (r: Option<u32>)
    ensures
        r == first_family_index(families@, |f: QueueFamilyInfo| supports_graphics(f)),
{
    let ghost p = |f: QueueFamilyInfo| supports_graphics(f);
    let mut i: usize = 0;
    while i < families.len()
        invariant
            i <= families@.len(),
            p == |f: QueueFamilyInfo| supports_graphics(f),
            forall|k: int| 0 <= k < i ==> !p(#[trigger] families@[k]),
        decreases families@.len() - i,
    {
        if families[i].flags & QUEUE_GRAPHICS != 0 {
            proof {
                lemma_first_where_found(families@, p, i as int);
            }
            return Some(families[i].index);
        }
        i = i + 1;
    }
    proof {
        lemma_first_where_none(families@, p);
    }
    None
}

fn first_present_family(families: &Vec<QueueFamilyInfo>) -> (r: Option<u32>)
    ensures
        r == first_family_index(families@, |f: QueueFamilyInfo| supports_present(f)),
{
    let ghost p = |f: QueueFamilyInfo| supports_present(f);
    let mut i: usize = 0;
    while i < families.len()
        invariant
            i <= families@.len(),
            p == |f: QueueFamilyInfo| supports_present(f),
            forall|k: int| 0 <= k < i ==> !p(#[trigger] families@[k]),
        decreases families@.len() - i,
    {
        if families[i].present_support {
            proof {
                lemma_first_where_found(families@, p, i as int);
            }
            return Some(families[i].index);
        }
        i = i + 1;
    }
    proof {
        lemma_first_where_none(families@, p);
    }
    None
}

fn find_required_format(formats: &Vec<SurfaceFormat>) -> (r: Option<SurfaceFormat>)
    ensures
        r == required_surface_format(formats@),
{
    let ghost p = |f: SurfaceFormat| is_required_format(f);
    let mut i: usize = 0;
    while i < formats.len()
        invariant
            i <= formats@.len(),
            p == |f: SurfaceFormat| is_required_format(f),
            forall|k: int| 0 <= k < i ==> !p(#[trigger] formats@[k]),
        decreases formats@.len() - i,
    {
        let f = formats[i];
        if f.format == FORMAT_B8G8R8A8_UNORM && f.color_space == COLOR_SPACE_SRGB_NONLINEAR_KHR {
            proof {
                lemma_first_where_found(formats@, p, i as int);
            }
            return Some(f);
        }
        i = i + 1;
    }
    proof {
        lemma_first_where_none(formats@, p);
    }
    None
}

fn choose_present_mode(modes: &Vec<i32>, vsync: bool) -> (r: i32)
    ensures
        r == swapchain_present_mode(modes@, vsync),
{
    let mut i: usize = 0;
    while i < modes.len()
        invariant
            i <= modes@.len(),
            forall|k: int| 0 <= k < i ==> modes@[k] != PRESENT_MODE_MAILBOX_KHR,
        decreases modes@.len() - i,
    {
        if modes[i] == PRESENT_MODE_MAILBOX_KHR {
            assert(modes@.contains(PRESENT_MODE_MAILBOX_KHR));
            return PRESENT_MODE_MAILBOX_KHR;
        }
        i = i + 1;
    }
    if vsync {
        PRESENT_MODE_FIFO_KHR
    } else {
        PRESENT_MODE_IMMEDIATE_KHR
    }
}

/// Whether the surface leaves the extent open in a case where the library
/// would otherwise configure a swapchain (see `extent_left_open`).
pub fn swapchain_extent_left_open(families: &Vec<QueueFamilyInfo>, support: &Option<SwapChainSupportDetails>) -> (r: bool)
    ensures
        r == extent_left_open(families@, *support),
{
    if first_graphics_family(families).is_none() || first_present_family(families).is_none() {
        return false;
    }
    match support {
        None => false,
        Some(s) => find_required_format(&s.formats).is_some()
            && s.capabilities.current_extent.width == u32::MAX,
    }
}

impl SwapchainInfo {
    /// Chooses the queue families, surface format, extent, image count and
    /// present mode of a swapchain, or says why there can be none.
    pub fn new(families: &Vec<QueueFamilyInfo>, support: &Option<SwapChainSupportDetails>, vsync: bool) -> (r:
        Result<SwapchainInfo, SwapchainConfigError>)
        requires
            !extent_left_open(families@, *support),
        ensures
            r == swapchain_info_spec(families@, *support, vsync),
    {
        let graphics = match first_graphics_family(families) {
            Some(index) => index,
            None => return Err(SwapchainConfigError::NoGraphicsQueue),
        };
        let present = match first_present_family(families) {
            Some(index) => index,
            None => return Err(SwapchainConfigError::NoPresentQueue),
        };
        let details = match support {
            Some(s) => s,
            None => return Err(SwapchainConfigError::NoSurface),
        };
        let surface_format = match find_required_format(&details.formats) {
            Some(f) => f,
            None => return Err(SwapchainConfigError::NoSurfaceFormat),
        };
        let caps = details.capabilities;
        let image_count = if caps.max_image_count > 0 {
            caps.max_image_count
        } else {
            caps.min_image_count
        };
        let present_mode = choose_present_mode(&details.present_modes, vsync);
        Ok(
            SwapchainInfo {
                queue_family_indices: [graphics, present],
                extent: caps.current_extent,
                present_mode,
                vsync,
                image_count,
                surface_format,
            },
        )
    }
}


/// The name of the `VK_EXT_image_compression_control_swapchain` extension.
pub open spec fn compression_control_swapchain_name() -> Seq<u8> {
    "VK_EXT_image_compression_control_swapchain".spec_bytes()
}

/// `ash::vk::EXT_IMAGE_COMPRESSION_CONTROL_SWAPCHAIN_NAME`, without its
/// terminating nul: the bytes of `VK_EXT_image_compression_control_swapchain`.
#[verifier::external_body]
fn compression_control_swapchain_extension() -> (r: Vec<u8>)
    ensures
        r@ == compression_control_swapchain_name(),
{
    ash::vk::EXT_IMAGE_COMPRESSION_CONTROL_SWAPCHAIN_NAME.to_bytes().to_vec()
}

/// The swapchain create info that the library fills in (the surface and the
/// old swapchain are handles that the caller adds).
#[derive(Clone, Debug, PartialEq, Eq)]
pub struct SwapchainCreatePlan {
    pub min_image_count: u32,
    pub image_format: i32,
    pub image_color_space: i32,
    pub image_extent: Extent2D,
    pub image_array_layers: u32,
    pub image_usage: u32,
    pub pre_transform: u32,
    pub composite_alpha: u32,
    pub image_sharing_mode: i32,
    /// The queue families that share the images; empty when not shared.
    pub queue_family_indices: Vec<u32>,
    pub present_mode: i32,
    pub clipped: bool,
    /// Whether to chain an image compression control structure (fixed rate,
    /// default) into the create info.
    pub image_compression_control: bool,
}

impl SwapchainCreatePlan {
    /// The create info for a swapchain configured as `info`, on a surface
    /// whose current transform is `current_transform`, on a device with the
    /// extensions `device_extensions` enabled. Images are shared between the
    /// two queue families when they differ; compression control is asked for
    /// when the device enabled `VK_EXT_image_compression_control_swapchain`.
    pub fn new(info: &SwapchainInfo, current_transform: u32, device_extensions: &Vec<Vec<u8>>) -> (r: Self)
        ensures
            r.min_image_count == info.image_count,
            r.image_format == info.surface_format.format,
            r.image_color_space == info.surface_format.color_space,
            r.image_extent == info.extent,
            r.image_array_layers == 1,
            r.image_usage == IMAGE_USAGE_COLOR_ATTACHMENT | IMAGE_USAGE_TRANSFER_DST,
            r.pre_transform == current_transform,
            r.composite_alpha == COMPOSITE_ALPHA_OPAQUE_KHR,
            info.queue_family_indices[0] != info.queue_family_indices[1] ==> r.image_sharing_mode
                == SHARING_MODE_CONCURRENT && r.queue_family_indices@ == seq![
                info.queue_family_indices[0],
                info.queue_family_indices[1],
            ],
            info.queue_family_indices[0] == info.queue_family_indices[1] ==> r.image_sharing_mode
                == SHARING_MODE_EXCLUSIVE && r.queue_family_indices@.len() == 0,
            r.present_mode == info.present_mode,
            r.clipped,
            r.image_compression_control == contains_name(
                name_views(device_extensions@),
                compression_control_swapchain_name(),
            ),
    {
        let (image_sharing_mode, queue_family_indices) = if info.queue_family_indices[0]
            != info.queue_family_indices[1] {
            (SHARING_MODE_CONCURRENT, vec![info.queue_family_indices[0], info.queue_family_indices[1]])
        } else {
            (SHARING_MODE_EXCLUSIVE, Vec::new())
        };
        let name = compression_control_swapchain_extension();
        let image_compression_control = has_name(device_extensions, &name);
        SwapchainCreatePlan {
            min_image_count: info.image_count,
            image_format: info.surface_format.format,
            image_color_space: info.surface_format.color_space,
            image_extent: info.extent,
            image_array_layers: 1,
            image_usage: IMAGE_USAGE_COLOR_ATTACHMENT | IMAGE_USAGE_TRANSFER_DST,
            pre_transform: current_transform,
            composite_alpha: COMPOSITE_ALPHA_OPAQUE_KHR,
            image_sharing_mode,
            queue_family_indices,
            present_mode: info.present_mode,
            clipped: true,
            image_compression_control,
        }
    }
}


/// With vsync the swapchain never presents immediately (mailbox or FIFO);
/// mailbox is chosen whenever the surface offers it.
pub proof fn law_vsync_never_tears(
    families: Seq<QueueFamilyInfo>,
    support: Option<SwapChainSupportDetails>,
    vsync: bool,
)
    ensures
        swapchain_info_spec(families, support, vsync) matches Ok(info) ==> {
            &&& vsync ==> info.present_mode != PRESENT_MODE_IMMEDIATE_KHR
            &&& (support matches Some(s) && s.present_modes@.contains(PRESENT_MODE_MAILBOX_KHR))
                ==> info.present_mode == PRESENT_MODE_MAILBOX_KHR
        },
{
}

/// A configured swapchain uses a graphics family and a presenting family of
/// the device, and the required surface format.
pub proof fn law_swapchain_uses_capable_families(
    families: Seq<QueueFamilyInfo>,
    support: Option<SwapChainSupportDetails>,
    vsync: bool,
)
    ensures
        swapchain_info_spec(families, support, vsync) matches Ok(info) ==> {
            &&& exists|i: int| 0 <= i < families.len() && families[i].flags & QUEUE_GRAPHICS != 0
                && families[i].index == info.queue_family_indices[0]
            &&& exists|i: int| 0 <= i < families.len() && families[i].present_support
                && families[i].index == info.queue_family_indices[1]
            &&& info.surface_format.format == FORMAT_B8G8R8A8_UNORM
            &&& info.surface_format.color_space == COLOR_SPACE_SRGB_NONLINEAR_KHR
            &&& support matches Some(s) && s.formats@.contains(info.surface_format)
        },
{
    let pg = |f: QueueFamilyInfo| supports_graphics(f);
    let pp = |f: QueueFamilyInfo| supports_present(f);
    crate::seqs::lemma_first_where_spec(families, pg);
    crate::seqs::lemma_first_where_spec(families, pp);
    if let Some(s) = support {
        crate::seqs::lemma_first_where_spec(s.formats@, |f: SurfaceFormat| is_required_format(f));
    }
    if let Some(i) = first_where(families, pg) {
        assert(pg(families[i]));
    }
    if let Some(i) = first_where(families, pp) {
        assert(pp(families[i]));
    }
    if let Some(s) = support {
        if let Some(i) = first_where(s.formats@, |f: SurfaceFormat| is_required_format(f)) {
            assert(s.formats@[i] == s.formats@[i]);
        }
    }
}

} // verus!
