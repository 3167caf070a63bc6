//! The raw Vulkan values that the library's decisions read and produce.
//!
//! The library works on Vulkan enumerants and flag bits as plain integers
//! (`i32` for enumerations, `u32` for flag masks); the application layer
//! turns them into `ash::vk` values with `from_raw`.
use vstd::prelude::*;

verus! {

// VkImageLayout
pub const IMAGE_LAYOUT_UNDEFINED: i32 = 0;
pub const IMAGE_LAYOUT_COLOR_ATTACHMENT_OPTIMAL: i32 = 2;
pub const IMAGE_LAYOUT_DEPTH_STENCIL_ATTACHMENT_OPTIMAL: i32 = 3;
pub const IMAGE_LAYOUT_SHADER_READ_ONLY_OPTIMAL: i32 = 5;
pub const IMAGE_LAYOUT_TRANSFER_SRC_OPTIMAL: i32 = 6;
pub const IMAGE_LAYOUT_TRANSFER_DST_OPTIMAL: i32 = 7;
pub const IMAGE_LAYOUT_PRESENT_SRC_KHR: i32 = 1000001002;
pub const IMAGE_LAYOUT_READ_ONLY_OPTIMAL: i32 = 1000314000;

// VkAccessFlagBits
pub const ACCESS_NONE: u32 = 0;
pub const ACCESS_SHADER_READ: u32 = 0x20;
pub const ACCESS_COLOR_ATTACHMENT_WRITE: u32 = 0x100;
pub const ACCESS_DEPTH_STENCIL_ATTACHMENT_READ: u32 = 0x200;
pub const ACCESS_DEPTH_STENCIL_ATTACHMENT_WRITE: u32 = 0x400;
pub const ACCESS_TRANSFER_READ: u32 = 0x800;
pub const ACCESS_TRANSFER_WRITE: u32 = 0x1000;

// VkPipelineStageFlagBits
pub const PIPELINE_STAGE_TOP_OF_PIPE: u32 = 0x1;
pub const PIPELINE_STAGE_FRAGMENT_SHADER: u32 = 0x80;
pub const PIPELINE_STAGE_EARLY_FRAGMENT_TESTS: u32 = 0x100;
pub const PIPELINE_STAGE_COLOR_ATTACHMENT_OUTPUT: u32 = 0x400;
pub const PIPELINE_STAGE_TRANSFER: u32 = 0x1000;
pub const PIPELINE_STAGE_BOTTOM_OF_PIPE: u32 = 0x2000;

// VkImageAspectFlagBits
pub const IMAGE_ASPECT_COLOR: u32 = 0x1;
pub const IMAGE_ASPECT_DEPTH: u32 = 0x2;

// VkFilter
pub const FILTER_LINEAR: i32 = 1;

// VkSubpassContents
pub const SUBPASS_CONTENTS_INLINE: i32 = 0;

/// `VK_QUEUE_FAMILY_IGNORED`
pub const QUEUE_FAMILY_IGNORED: u32 = 0xFFFF_FFFF;

/// `VK_SUBPASS_EXTERNAL`
pub const SUBPASS_EXTERNAL: u32 = 0xFFFF_FFFF;

/// `VK_SHADER_UNUSED_KHR`
pub const SHADER_UNUSED_KHR: u32 = 0xFFFF_FFFF;


// VkShaderStageFlagBits (ray tracing)
pub const SHADER_STAGE_RAYGEN_KHR: u32 = 0x100;
pub const SHADER_STAGE_ANY_HIT_KHR: u32 = 0x200;
pub const SHADER_STAGE_CLOSEST_HIT_KHR: u32 = 0x400;
pub const SHADER_STAGE_MISS_KHR: u32 = 0x800;
pub const SHADER_STAGE_INTERSECTION_KHR: u32 = 0x1000;
pub const SHADER_STAGE_CALLABLE_KHR: u32 = 0x2000;

// VkRayTracingShaderGroupTypeKHR
pub const SHADER_GROUP_GENERAL: i32 = 0;
pub const SHADER_GROUP_TRIANGLES_HIT_GROUP: i32 = 1;
pub const SHADER_GROUP_PROCEDURAL_HIT_GROUP: i32 = 2;

// VkQueueFlagBits
pub const QUEUE_GRAPHICS: u32 = 0x1;

// VkFormat
pub const FORMAT_B8G8R8A8_UNORM: i32 = 44;
pub const FORMAT_R32_SFLOAT: i32 = 100;
pub const FORMAT_R32G32_SFLOAT: i32 = 103;
pub const FORMAT_R32G32B32_SFLOAT: i32 = 106;
pub const FORMAT_R32G32B32A32_SFLOAT: i32 = 109;
pub const FORMAT_D24_UNORM_S8_UINT: i32 = 129;
pub const FORMAT_D32_SFLOAT_S8_UINT: i32 = 130;

// VkColorSpaceKHR
pub const COLOR_SPACE_SRGB_NONLINEAR_KHR: i32 = 0;

// VkPresentModeKHR
pub const PRESENT_MODE_IMMEDIATE_KHR: i32 = 0;
pub const PRESENT_MODE_MAILBOX_KHR: i32 = 1;
pub const PRESENT_MODE_FIFO_KHR: i32 = 2;

// VkImageTiling
pub const IMAGE_TILING_OPTIMAL: i32 = 0;
pub const IMAGE_TILING_LINEAR: i32 = 1;

// VkFormatFeatureFlagBits
pub const FORMAT_FEATURE_DEPTH_STENCIL_ATTACHMENT: u32 = 0x200;
pub const FORMAT_FEATURE_SAMPLED_IMAGE_FILTER_LINEAR: u32 = 0x1000;

// VkImageUsageFlagBits
pub const IMAGE_USAGE_TRANSFER_SRC: u32 = 0x1;
pub const IMAGE_USAGE_TRANSFER_DST: u32 = 0x2;
pub const IMAGE_USAGE_SAMPLED: u32 = 0x4;
pub const IMAGE_USAGE_COLOR_ATTACHMENT: u32 = 0x10;
pub const IMAGE_USAGE_DEPTH_STENCIL_ATTACHMENT: u32 = 0x20;
pub const IMAGE_USAGE_TRANSIENT_ATTACHMENT: u32 = 0x40;

// VkCompositeAlphaFlagBitsKHR
pub const COMPOSITE_ALPHA_OPAQUE_KHR: u32 = 0x1;

// VkSharingMode
pub const SHARING_MODE_EXCLUSIVE: i32 = 0;
pub const SHARING_MODE_CONCURRENT: i32 = 1;

// VkFormat (undefined)
pub const FORMAT_UNDEFINED: i32 = 0;

// VkSampleCountFlagBits
pub const SAMPLE_COUNT_1: u32 = 0x1;
pub const SAMPLE_COUNT_2: u32 = 0x2;
pub const SAMPLE_COUNT_4: u32 = 0x4;
pub const SAMPLE_COUNT_8: u32 = 0x8;
pub const SAMPLE_COUNT_16: u32 = 0x10;
pub const SAMPLE_COUNT_32: u32 = 0x20;
pub const SAMPLE_COUNT_64: u32 = 0x40;

// VkMemoryPropertyFlagBits
pub const MEMORY_PROPERTY_DEVICE_LOCAL: u32 = 0x1;
pub const MEMORY_PROPERTY_HOST_VISIBLE: u32 = 0x2;
pub const MEMORY_PROPERTY_HOST_COHERENT: u32 = 0x4;

// VkImageCreateFlagBits
pub const IMAGE_CREATE_CUBE_COMPATIBLE: u32 = 0x10;

// VkImageViewType
pub const IMAGE_VIEW_TYPE_2D: i32 = 1;
pub const IMAGE_VIEW_TYPE_CUBE: i32 = 3;

// VkAttachmentLoadOp
pub const ATTACHMENT_LOAD_OP_CLEAR: i32 = 1;
pub const ATTACHMENT_LOAD_OP_DONT_CARE: i32 = 2;

// VkAttachmentStoreOp
pub const ATTACHMENT_STORE_OP_STORE: i32 = 0;
pub const ATTACHMENT_STORE_OP_DONT_CARE: i32 = 1;

// VkPipelineBindPoint
pub const PIPELINE_BIND_POINT_GRAPHICS: i32 = 0;
pub const PIPELINE_BIND_POINT_COMPUTE: i32 = 1;
pub const PIPELINE_BIND_POINT_RAY_TRACING_KHR: i32 = 1000165000;

// VkBufferUsageFlagBits
pub const BUFFER_USAGE_STORAGE_BUFFER: u32 = 0x20;
pub const BUFFER_USAGE_SHADER_DEVICE_ADDRESS: u32 = 0x20000;
pub const BUFFER_USAGE_ACCELERATION_STRUCTURE_STORAGE_KHR: u32 = 0x100000;

// VkDescriptorPoolCreateFlagBits
pub const DESCRIPTOR_POOL_CREATE_FREE_DESCRIPTOR_SET: u32 = 0x1;
pub const DESCRIPTOR_POOL_CREATE_UPDATE_AFTER_BIND: u32 = 0x2;

// VkVertexInputRate
pub const VERTEX_INPUT_RATE_VERTEX: i32 = 0;

// VkAccelerationStructureTypeKHR
pub const ACCELERATION_STRUCTURE_TYPE_TOP_LEVEL_KHR: i32 = 0;
pub const ACCELERATION_STRUCTURE_TYPE_BOTTOM_LEVEL_KHR: i32 = 1;

// VkBuildAccelerationStructureFlagBitsKHR
pub const BUILD_ACCELERATION_STRUCTURE_PREFER_FAST_TRACE_KHR: u32 = 0x4;

// VkResult
pub const RESULT_SUCCESS: i32 = 0;
pub const RESULT_NOT_READY: i32 = 1;
pub const RESULT_SUBOPTIMAL_KHR: i32 = 1000001003;

// VkDebugUtilsMessageSeverityFlagBitsEXT
pub const DEBUG_SEVERITY_VERBOSE: u32 = 0x1;
pub const DEBUG_SEVERITY_INFO: u32 = 0x10;
pub const DEBUG_SEVERITY_WARNING: u32 = 0x100;
pub const DEBUG_SEVERITY_ERROR: u32 = 0x1000;

/// `VK_INSTANCE_CREATE_ENUMERATE_PORTABILITY_BIT_KHR`
pub const INSTANCE_CREATE_ENUMERATE_PORTABILITY_KHR: u32 = 0x1;

} // verus!
