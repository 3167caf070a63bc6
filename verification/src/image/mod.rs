//! Images: what the library records of them and how it creates them.
use vstd::prelude::*;
use crate::vkraw::{
    FORMAT_FEATURE_SAMPLED_IMAGE_FILTER_LINEAR,
    FORMAT_UNDEFINED,
    IMAGE_ASPECT_COLOR,
    IMAGE_ASPECT_DEPTH,
    IMAGE_CREATE_CUBE_COMPATIBLE,
    IMAGE_LAYOUT_READ_ONLY_OPTIMAL,
    IMAGE_LAYOUT_UNDEFINED,
    IMAGE_TILING_OPTIMAL,
    IMAGE_USAGE_COLOR_ATTACHMENT,
    IMAGE_USAGE_DEPTH_STENCIL_ATTACHMENT,
    IMAGE_USAGE_SAMPLED,
    IMAGE_USAGE_TRANSFER_DST,
    IMAGE_USAGE_TRANSFER_SRC,
    IMAGE_USAGE_TRANSIENT_ATTACHMENT,
    IMAGE_VIEW_TYPE_2D,
    IMAGE_VIEW_TYPE_CUBE,
    MEMORY_PROPERTY_DEVICE_LOCAL,
    SAMPLE_COUNT_1,
};

verus! {

/// What an image is used for.
#[derive(Clone, Copy, Debug, PartialEq, Eq, Structural, PartialOrd, Ord)]
pub enum ImageType {
    Swapchain,
    Sampled,
    FramebufferColor,
    FramebufferDepth,
}

/// What the library records of an image.
#[derive(Clone, Copy, Debug, PartialEq, Eq)]
pub struct ImageInfo {
    pub extent: [u32; 2],
    pub typ: ImageType,
    /// `VkFormat`.
    pub format: i32,
    /// The `VkImageLayout` that the image is in.
    pub layout: i32,
    pub mip_levels: u32,
    pub array_layers: u32,
}

/// How to create an image (all Vulkan values raw).
#[derive(Clone, Copy, Debug, PartialEq, Eq)]
pub struct ImageCreateInfo {
    pub width: u32,
    pub height: u32,
    pub generate_mips: bool,
    pub image_type: ImageType,
    pub samples: u32,
    pub format: i32,
    pub tiling: i32,
    pub aspect_mask: u32,
    pub usage: u32,
    pub mem_property: u32,
    pub array_layers: u32,
    pub flags: u32,
    pub view_type: i32,
}

/// The format cannot be sampled with linear filtering under optimal tiling.
#[derive(Clone, Copy, Debug, PartialEq, Eq, Structural)]
pub struct NoLinearFiltering;

/// No depth format suits the device.
#[derive(Clone, Copy, Debug, PartialEq, Eq, Structural)]
pub struct NoDepthFormat;

impl Default for ImageCreateInfo {
    /// A 1x1 sampled colour image of undefined format, one layer, no usage,
    /// in device local memory.
    fn default() -> (r: Self)
        ensures
            r.width == 1 && r.height == 1,
            !r.generate_mips,
            r.image_type == ImageType::Sampled,
            r.samples == SAMPLE_COUNT_1,
            r.format == FORMAT_UNDEFINED,
            r.tiling == IMAGE_TILING_OPTIMAL,
            r.aspect_mask == IMAGE_ASPECT_COLOR,
            r.usage == 0,
            r.mem_property == MEMORY_PROPERTY_DEVICE_LOCAL,
            r.array_layers == 1,
            r.flags == 0,
            r.view_type == IMAGE_VIEW_TYPE_2D,
    {
        ImageCreateInfo {
            width: 1,
            height: 1,
            generate_mips: false,
            image_type: ImageType::Sampled,
            samples: SAMPLE_COUNT_1,
            format: FORMAT_UNDEFINED,
            tiling: IMAGE_TILING_OPTIMAL,
            aspect_mask: IMAGE_ASPECT_COLOR,
            usage: 0,
            mem_property: MEMORY_PROPERTY_DEVICE_LOCAL,
            array_layers: 1,
            flags: 0,
            view_type: IMAGE_VIEW_TYPE_2D,
        }
    }
}

/// A format whose optimal tiling features are `features` can be sampled with
/// linear filtering.
pub open spec fn filters_linearly(features: u32) -> bool {
    features & FORMAT_FEATURE_SAMPLED_IMAGE_FILTER_LINEAR == FORMAT_FEATURE_SAMPLED_IMAGE_FILTER_LINEAR
}

/// The create info of a sampled 2D colour image.
pub open spec fn sampled_image_spec(extent: [u32; 2], format: i32) -> ImageCreateInfo {
    ImageCreateInfo {
        width: extent[0],
        height: extent[1],
        generate_mips: false,
        image_type: ImageType::Sampled,
        samples: SAMPLE_COUNT_1,
        format,
        tiling: IMAGE_TILING_OPTIMAL,
        aspect_mask: IMAGE_ASPECT_COLOR,
        usage: IMAGE_USAGE_TRANSFER_SRC | IMAGE_USAGE_TRANSFER_DST | IMAGE_USAGE_SAMPLED
            | IMAGE_USAGE_COLOR_ATTACHMENT,
        mem_property: MEMORY_PROPERTY_DEVICE_LOCAL,
        array_layers: 1,
        flags: 0,
        view_type: IMAGE_VIEW_TYPE_2D,
    }
}

/// The create info of a cubemap: six layers, cube compatible.
pub open spec fn cubemap_spec(extent: [u32; 2], format: i32, generate_mips: bool) -> ImageCreateInfo {
    ImageCreateInfo {
        width: extent[0],
        height: extent[1],
        generate_mips,
        image_type: ImageType::Sampled,
        samples: SAMPLE_COUNT_1,
        format,
        tiling: IMAGE_TILING_OPTIMAL,
        aspect_mask: IMAGE_ASPECT_COLOR,
        usage: IMAGE_USAGE_TRANSFER_SRC | IMAGE_USAGE_TRANSFER_DST | IMAGE_USAGE_SAMPLED,
        mem_property: MEMORY_PROPERTY_DEVICE_LOCAL,
        array_layers: 6,
        flags: IMAGE_CREATE_CUBE_COMPATIBLE,
        view_type: IMAGE_VIEW_TYPE_CUBE,
    }
}

/// The create info of the multisampled colour attachment of a framebuffer.
pub open spec fn framebuffer_color_spec(extent: [u32; 2], format: i32, samples: u32) -> ImageCreateInfo {
    ImageCreateInfo {
        width: extent[0],
        height: extent[1],
        generate_mips: false,
        image_type: ImageType::FramebufferColor,
        samples,
        format,
        tiling: IMAGE_TILING_OPTIMAL,
        aspect_mask: IMAGE_ASPECT_COLOR,
        usage: IMAGE_USAGE_TRANSIENT_ATTACHMENT | IMAGE_USAGE_COLOR_ATTACHMENT,
        mem_property: MEMORY_PROPERTY_DEVICE_LOCAL,
        array_layers: 1,
        flags: 0,
        view_type: IMAGE_VIEW_TYPE_2D,
    }
}

/// The create info of the depth attachment of a framebuffer.
pub open spec fn framebuffer_depth_spec(extent: [u32; 2], depth_format: i32, samples: u32) -> ImageCreateInfo {
    ImageCreateInfo {
        width: extent[0],
        height: extent[1],
        generate_mips: false,
        image_type: ImageType::FramebufferDepth,
        samples,
        format: depth_format,
        tiling: IMAGE_TILING_OPTIMAL,
        aspect_mask: IMAGE_ASPECT_DEPTH,
        usage: IMAGE_USAGE_DEPTH_STENCIL_ATTACHMENT,
        mem_property: MEMORY_PROPERTY_DEVICE_LOCAL,
        array_layers: 1,
        flags: 0,
        view_type: IMAGE_VIEW_TYPE_2D,
    }
}

impl ImageCreateInfo {
    /// A sampled 2D image (what `Image::new` creates), refused when the format
    /// cannot be filtered linearly; `optimal_tiling_features` are the
    /// format's features under optimal tiling.
    pub fn sampled(extent: [u32; 2], format: i32, optimal_tiling_features: u32) -> (r: Result<Self, NoLinearFiltering>)
        ensures
            filters_linearly(optimal_tiling_features) ==> (r matches Ok(ci) && ci == sampled_image_spec(extent, format)),
            !filters_linearly(optimal_tiling_features) ==> r is Err,
    {
        if optimal_tiling_features & FORMAT_FEATURE_SAMPLED_IMAGE_FILTER_LINEAR
            != FORMAT_FEATURE_SAMPLED_IMAGE_FILTER_LINEAR {
            return Err(NoLinearFiltering);
        }
        Ok(ImageCreateInfo {
            width: extent[0],
            height: extent[1],
            generate_mips: false,
            image_type: ImageType::Sampled,
            samples: SAMPLE_COUNT_1,
            format,
            tiling: IMAGE_TILING_OPTIMAL,
            aspect_mask: IMAGE_ASPECT_COLOR,
            usage: IMAGE_USAGE_TRANSFER_SRC | IMAGE_USAGE_TRANSFER_DST | IMAGE_USAGE_SAMPLED
                | IMAGE_USAGE_COLOR_ATTACHMENT,
            mem_property: MEMORY_PROPERTY_DEVICE_LOCAL,
            array_layers: 1,
            flags: 0,
            view_type: IMAGE_VIEW_TYPE_2D,
        })
    }

    /// A cubemap (what `Image::new_cubemap` creates), refused when the format
    /// cannot be filtered linearly.
    pub fn cubemap(extent: [u32; 2], format: i32, generate_mips: bool, optimal_tiling_features: u32) -> (r: Result<Self, NoLinearFiltering>)
        ensures
            filters_linearly(optimal_tiling_features) ==> (r matches Ok(ci) && ci == cubemap_spec(extent, format, generate_mips)),
            !filters_linearly(optimal_tiling_features) ==> r is Err,
    {
        if optimal_tiling_features & FORMAT_FEATURE_SAMPLED_IMAGE_FILTER_LINEAR
            != FORMAT_FEATURE_SAMPLED_IMAGE_FILTER_LINEAR {
            return Err(NoLinearFiltering);
        }
        Ok(ImageCreateInfo {
            width: extent[0],
            height: extent[1],
            generate_mips,
            image_type: ImageType::Sampled,
            samples: SAMPLE_COUNT_1,
            format,
            tiling: IMAGE_TILING_OPTIMAL,
            aspect_mask: IMAGE_ASPECT_COLOR,
            usage: IMAGE_USAGE_TRANSFER_SRC | IMAGE_USAGE_TRANSFER_DST | IMAGE_USAGE_SAMPLED,
            mem_property: MEMORY_PROPERTY_DEVICE_LOCAL,
            array_layers: 6,
            flags: IMAGE_CREATE_CUBE_COMPATIBLE,
            view_type: IMAGE_VIEW_TYPE_CUBE,
        })
    }

    /// The multisampled colour attachment of a framebuffer.
    pub fn framebuffer_color(extent: [u32; 2], format: i32, samples: u32) -> (r: Self)
        ensures
            r == framebuffer_color_spec(extent, format, samples),
    {
        ImageCreateInfo {
            width: extent[0],
            height: extent[1],
            generate_mips: false,
            image_type: ImageType::FramebufferColor,
            samples,
            format,
            tiling: IMAGE_TILING_OPTIMAL,
            aspect_mask: IMAGE_ASPECT_COLOR,
            usage: IMAGE_USAGE_TRANSIENT_ATTACHMENT | IMAGE_USAGE_COLOR_ATTACHMENT,
            mem_property: MEMORY_PROPERTY_DEVICE_LOCAL,
            array_layers: 1,
            flags: 0,
            view_type: IMAGE_VIEW_TYPE_2D,
        }
    }

    /// The depth attachment of a framebuffer, in the depth format found for
    /// the device (`None`: there is none, which is refused).
    pub fn framebuffer_depth(extent: [u32; 2], depth_format: Option<i32>, samples: u32) -> (r: Result<Self, NoDepthFormat>)
        ensures
            match depth_format {
                Some(f) => r matches Ok(ci) && ci == framebuffer_depth_spec(extent, f, samples),
                None => r is Err,
            },
    {
        let format = match depth_format {
            Some(f) => f,
            None => return Err(NoDepthFormat),
        };
        Ok(ImageCreateInfo {
            width: extent[0],
            height: extent[1],
            generate_mips: false,
            image_type: ImageType::FramebufferDepth,
            samples,
            format,
            tiling: IMAGE_TILING_OPTIMAL,
            aspect_mask: IMAGE_ASPECT_DEPTH,
            usage: IMAGE_USAGE_DEPTH_STENCIL_ATTACHMENT,
            mem_property: MEMORY_PROPERTY_DEVICE_LOCAL,
            array_layers: 1,
            flags: 0,
            view_type: IMAGE_VIEW_TYPE_2D,
        })
    }
}

impl ImageInfo {
    /// A presentable image of a swapchain: one layer, no mip level of its
    /// own, in the read only layout.
    pub fn swapchain(extent: [u32; 2], format: i32) -> (r: Self)
        ensures
            r.extent == extent,
            r.typ == ImageType::Swapchain,
            r.format == format,
            r.layout == IMAGE_LAYOUT_READ_ONLY_OPTIMAL,
            r.mip_levels == 0,
            r.array_layers == 1,
    {
        ImageInfo {
            extent,
            typ: ImageType::Swapchain,
            format,
            layout: IMAGE_LAYOUT_READ_ONLY_OPTIMAL,
            mip_levels: 0,
            array_layers: 1,
        }
    }

    /// An image just created from `create_info` with `mip_levels` levels: its
    /// layout is undefined.
    pub fn created(create_info: &ImageCreateInfo, mip_levels: u32) -> (r: Self)
        ensures
            r.extent == [create_info.width, create_info.height],
            r.typ == create_info.image_type,
            r.format == create_info.format,
            r.layout == IMAGE_LAYOUT_UNDEFINED,
            r.mip_levels == mip_levels,
            r.array_layers == create_info.array_layers,
    {
        ImageInfo {
            extent: [create_info.width, create_info.height],
            typ: create_info.image_type,
            format: create_info.format,
            layout: IMAGE_LAYOUT_UNDEFINED,
            mip_levels,
            array_layers: create_info.array_layers,
        }
    }
}

} // verus!
