use ash::vk;
use crystal_vk::vkraw;

#[test]
fn image_layouts_match_vulkan() {
    assert_eq!(vkraw::IMAGE_LAYOUT_UNDEFINED, vk::ImageLayout::UNDEFINED.as_raw());
    assert_eq!(vkraw::IMAGE_LAYOUT_COLOR_ATTACHMENT_OPTIMAL, vk::ImageLayout::COLOR_ATTACHMENT_OPTIMAL.as_raw());
    assert_eq!(
        vkraw::IMAGE_LAYOUT_DEPTH_STENCIL_ATTACHMENT_OPTIMAL,
        vk::ImageLayout::DEPTH_STENCIL_ATTACHMENT_OPTIMAL.as_raw()
    );
    assert_eq!(vkraw::IMAGE_LAYOUT_SHADER_READ_ONLY_OPTIMAL, vk::ImageLayout::SHADER_READ_ONLY_OPTIMAL.as_raw());
    assert_eq!(vkraw::IMAGE_LAYOUT_TRANSFER_SRC_OPTIMAL, vk::ImageLayout::TRANSFER_SRC_OPTIMAL.as_raw());
    assert_eq!(vkraw::IMAGE_LAYOUT_TRANSFER_DST_OPTIMAL, vk::ImageLayout::TRANSFER_DST_OPTIMAL.as_raw());
    assert_eq!(vkraw::IMAGE_LAYOUT_PRESENT_SRC_KHR, vk::ImageLayout::PRESENT_SRC_KHR.as_raw());
    assert_eq!(vkraw::IMAGE_LAYOUT_READ_ONLY_OPTIMAL, vk::ImageLayout::READ_ONLY_OPTIMAL.as_raw());
}

#[test]
fn access_and_stage_flags_match_vulkan() {
    assert_eq!(vkraw::ACCESS_NONE, vk::AccessFlags::empty().as_raw());
    assert_eq!(vkraw::ACCESS_SHADER_READ, vk::AccessFlags::SHADER_READ.as_raw());
    assert_eq!(vkraw::ACCESS_COLOR_ATTACHMENT_WRITE, vk::AccessFlags::COLOR_ATTACHMENT_WRITE.as_raw());
    assert_eq!(
        vkraw::ACCESS_DEPTH_STENCIL_ATTACHMENT_READ,
        vk::AccessFlags::DEPTH_STENCIL_ATTACHMENT_READ.as_raw()
    );
    assert_eq!(
        vkraw::ACCESS_DEPTH_STENCIL_ATTACHMENT_WRITE,
        vk::AccessFlags::DEPTH_STENCIL_ATTACHMENT_WRITE.as_raw()
    );
    assert_eq!(vkraw::ACCESS_TRANSFER_READ, vk::AccessFlags::TRANSFER_READ.as_raw());
    assert_eq!(vkraw::ACCESS_TRANSFER_WRITE, vk::AccessFlags::TRANSFER_WRITE.as_raw());
    assert_eq!(vkraw::PIPELINE_STAGE_TOP_OF_PIPE, vk::PipelineStageFlags::TOP_OF_PIPE.as_raw());
    assert_eq!(vkraw::PIPELINE_STAGE_FRAGMENT_SHADER, vk::PipelineStageFlags::FRAGMENT_SHADER.as_raw());
    assert_eq!(
        vkraw::PIPELINE_STAGE_EARLY_FRAGMENT_TESTS,
        vk::PipelineStageFlags::EARLY_FRAGMENT_TESTS.as_raw()
    );
    assert_eq!(
        vkraw::PIPELINE_STAGE_COLOR_ATTACHMENT_OUTPUT,
        vk::PipelineStageFlags::COLOR_ATTACHMENT_OUTPUT.as_raw()
    );
    assert_eq!(vkraw::PIPELINE_STAGE_TRANSFER, vk::PipelineStageFlags::TRANSFER.as_raw());
    assert_eq!(vkraw::PIPELINE_STAGE_BOTTOM_OF_PIPE, vk::PipelineStageFlags::BOTTOM_OF_PIPE.as_raw());
    assert_eq!(vkraw::IMAGE_ASPECT_COLOR, vk::ImageAspectFlags::COLOR.as_raw());
    assert_eq!(vkraw::IMAGE_ASPECT_DEPTH, vk::ImageAspectFlags::DEPTH.as_raw());
}

#[test]
fn enumerants_match_vulkan() {
    assert_eq!(vkraw::FILTER_LINEAR, vk::Filter::LINEAR.as_raw());
    assert_eq!(vkraw::SUBPASS_CONTENTS_INLINE, vk::SubpassContents::INLINE.as_raw());
    assert_eq!(vkraw::QUEUE_FAMILY_IGNORED, vk::QUEUE_FAMILY_IGNORED);
    assert_eq!(vkraw::SUBPASS_EXTERNAL, vk::SUBPASS_EXTERNAL);
    assert_eq!(vkraw::SHADER_UNUSED_KHR, vk::SHADER_UNUSED_KHR);
    assert_eq!(vkraw::SHADER_GROUP_GENERAL, vk::RayTracingShaderGroupTypeKHR::GENERAL.as_raw());
    assert_eq!(
        vkraw::SHADER_GROUP_TRIANGLES_HIT_GROUP,
        vk::RayTracingShaderGroupTypeKHR::TRIANGLES_HIT_GROUP.as_raw()
    );
    assert_eq!(
        vkraw::SHADER_GROUP_PROCEDURAL_HIT_GROUP,
        vk::RayTracingShaderGroupTypeKHR::PROCEDURAL_HIT_GROUP.as_raw()
    );
    assert_eq!(vkraw::FORMAT_UNDEFINED, vk::Format::UNDEFINED.as_raw());
    assert_eq!(vkraw::FORMAT_B8G8R8A8_UNORM, vk::Format::B8G8R8A8_UNORM.as_raw());
    assert_eq!(vkraw::FORMAT_R32_SFLOAT, vk::Format::R32_SFLOAT.as_raw());
    assert_eq!(vkraw::FORMAT_R32G32_SFLOAT, vk::Format::R32G32_SFLOAT.as_raw());
    assert_eq!(vkraw::FORMAT_R32G32B32_SFLOAT, vk::Format::R32G32B32_SFLOAT.as_raw());
    assert_eq!(vkraw::FORMAT_R32G32B32A32_SFLOAT, vk::Format::R32G32B32A32_SFLOAT.as_raw());
    assert_eq!(vkraw::FORMAT_D24_UNORM_S8_UINT, vk::Format::D24_UNORM_S8_UINT.as_raw());
    assert_eq!(vkraw::FORMAT_D32_SFLOAT_S8_UINT, vk::Format::D32_SFLOAT_S8_UINT.as_raw());
    assert_eq!(vkraw::COLOR_SPACE_SRGB_NONLINEAR_KHR, vk::ColorSpaceKHR::SRGB_NONLINEAR.as_raw());
    assert_eq!(vkraw::PRESENT_MODE_IMMEDIATE_KHR, vk::PresentModeKHR::IMMEDIATE.as_raw());
    assert_eq!(vkraw::PRESENT_MODE_MAILBOX_KHR, vk::PresentModeKHR::MAILBOX.as_raw());
    assert_eq!(vkraw::PRESENT_MODE_FIFO_KHR, vk::PresentModeKHR::FIFO.as_raw());
    assert_eq!(vkraw::IMAGE_TILING_OPTIMAL, vk::ImageTiling::OPTIMAL.as_raw());
    assert_eq!(vkraw::IMAGE_TILING_LINEAR, vk::ImageTiling::LINEAR.as_raw());
    assert_eq!(vkraw::SHARING_MODE_EXCLUSIVE, vk::SharingMode::EXCLUSIVE.as_raw());
    assert_eq!(
        vkraw::INSTANCE_CREATE_ENUMERATE_PORTABILITY_KHR,
        vk::InstanceCreateFlags::ENUMERATE_PORTABILITY_KHR.as_raw()
    );
    assert_eq!(vkraw::SHARING_MODE_CONCURRENT, vk::SharingMode::CONCURRENT.as_raw());
    assert_eq!(vkraw::IMAGE_VIEW_TYPE_2D, vk::ImageViewType::TYPE_2D.as_raw());
    assert_eq!(vkraw::IMAGE_VIEW_TYPE_CUBE, vk::ImageViewType::CUBE.as_raw());
    assert_eq!(vkraw::ATTACHMENT_LOAD_OP_CLEAR, vk::AttachmentLoadOp::CLEAR.as_raw());
    assert_eq!(vkraw::ATTACHMENT_LOAD_OP_DONT_CARE, vk::AttachmentLoadOp::DONT_CARE.as_raw());
    assert_eq!(vkraw::ATTACHMENT_STORE_OP_STORE, vk::AttachmentStoreOp::STORE.as_raw());
    assert_eq!(vkraw::ATTACHMENT_STORE_OP_DONT_CARE, vk::AttachmentStoreOp::DONT_CARE.as_raw());
    assert_eq!(vkraw::PIPELINE_BIND_POINT_GRAPHICS, vk::PipelineBindPoint::GRAPHICS.as_raw());
    assert_eq!(vkraw::PIPELINE_BIND_POINT_COMPUTE, vk::PipelineBindPoint::COMPUTE.as_raw());
    assert_eq!(vkraw::PIPELINE_BIND_POINT_RAY_TRACING_KHR, vk::PipelineBindPoint::RAY_TRACING_KHR.as_raw());
    assert_eq!(vkraw::VERTEX_INPUT_RATE_VERTEX, vk::VertexInputRate::VERTEX.as_raw());
    assert_eq!(
        vkraw::ACCELERATION_STRUCTURE_TYPE_TOP_LEVEL_KHR,
        vk::AccelerationStructureTypeKHR::TOP_LEVEL.as_raw()
    );
    assert_eq!(
        vkraw::ACCELERATION_STRUCTURE_TYPE_BOTTOM_LEVEL_KHR,
        vk::AccelerationStructureTypeKHR::BOTTOM_LEVEL.as_raw()
    );
    assert_eq!(vkraw::RESULT_SUCCESS, vk::Result::SUCCESS.as_raw());
    assert_eq!(vkraw::RESULT_NOT_READY, vk::Result::NOT_READY.as_raw());
    assert_eq!(vkraw::RESULT_SUBOPTIMAL_KHR, vk::Result::SUBOPTIMAL_KHR.as_raw());
}

#[test]
fn flag_bits_match_vulkan() {
    assert_eq!(vkraw::SHADER_STAGE_RAYGEN_KHR, vk::ShaderStageFlags::RAYGEN_KHR.as_raw());
    assert_eq!(vkraw::SHADER_STAGE_ANY_HIT_KHR, vk::ShaderStageFlags::ANY_HIT_KHR.as_raw());
    assert_eq!(vkraw::SHADER_STAGE_CLOSEST_HIT_KHR, vk::ShaderStageFlags::CLOSEST_HIT_KHR.as_raw());
    assert_eq!(vkraw::SHADER_STAGE_MISS_KHR, vk::ShaderStageFlags::MISS_KHR.as_raw());
    assert_eq!(vkraw::SHADER_STAGE_INTERSECTION_KHR, vk::ShaderStageFlags::INTERSECTION_KHR.as_raw());
    assert_eq!(vkraw::SHADER_STAGE_CALLABLE_KHR, vk::ShaderStageFlags::CALLABLE_KHR.as_raw());
    assert_eq!(vkraw::QUEUE_GRAPHICS, vk::QueueFlags::GRAPHICS.as_raw());
    assert_eq!(
        vkraw::FORMAT_FEATURE_DEPTH_STENCIL_ATTACHMENT,
        vk::FormatFeatureFlags::DEPTH_STENCIL_ATTACHMENT.as_raw()
    );
    assert_eq!(
        vkraw::FORMAT_FEATURE_SAMPLED_IMAGE_FILTER_LINEAR,
        vk::FormatFeatureFlags::SAMPLED_IMAGE_FILTER_LINEAR.as_raw()
    );
    assert_eq!(vkraw::IMAGE_USAGE_TRANSFER_SRC, vk::ImageUsageFlags::TRANSFER_SRC.as_raw());
    assert_eq!(vkraw::IMAGE_USAGE_TRANSFER_DST, vk::ImageUsageFlags::TRANSFER_DST.as_raw());
    assert_eq!(vkraw::IMAGE_USAGE_SAMPLED, vk::ImageUsageFlags::SAMPLED.as_raw());
    assert_eq!(vkraw::IMAGE_USAGE_COLOR_ATTACHMENT, vk::ImageUsageFlags::COLOR_ATTACHMENT.as_raw());
    assert_eq!(
        vkraw::IMAGE_USAGE_DEPTH_STENCIL_ATTACHMENT,
        vk::ImageUsageFlags::DEPTH_STENCIL_ATTACHMENT.as_raw()
    );
    assert_eq!(vkraw::IMAGE_USAGE_TRANSIENT_ATTACHMENT, vk::ImageUsageFlags::TRANSIENT_ATTACHMENT.as_raw());
    assert_eq!(vkraw::COMPOSITE_ALPHA_OPAQUE_KHR, vk::CompositeAlphaFlagsKHR::OPAQUE.as_raw());
    assert_eq!(vkraw::SAMPLE_COUNT_1, vk::SampleCountFlags::TYPE_1.as_raw());
    assert_eq!(vkraw::SAMPLE_COUNT_2, vk::SampleCountFlags::TYPE_2.as_raw());
    assert_eq!(vkraw::SAMPLE_COUNT_4, vk::SampleCountFlags::TYPE_4.as_raw());
    assert_eq!(vkraw::SAMPLE_COUNT_8, vk::SampleCountFlags::TYPE_8.as_raw());
    assert_eq!(vkraw::SAMPLE_COUNT_16, vk::SampleCountFlags::TYPE_16.as_raw());
    assert_eq!(vkraw::SAMPLE_COUNT_32, vk::SampleCountFlags::TYPE_32.as_raw());
    assert_eq!(vkraw::SAMPLE_COUNT_64, vk::SampleCountFlags::TYPE_64.as_raw());
    assert_eq!(vkraw::MEMORY_PROPERTY_DEVICE_LOCAL, vk::MemoryPropertyFlags::DEVICE_LOCAL.as_raw());
    assert_eq!(vkraw::MEMORY_PROPERTY_HOST_VISIBLE, vk::MemoryPropertyFlags::HOST_VISIBLE.as_raw());
    assert_eq!(vkraw::MEMORY_PROPERTY_HOST_COHERENT, vk::MemoryPropertyFlags::HOST_COHERENT.as_raw());
    assert_eq!(vkraw::IMAGE_CREATE_CUBE_COMPATIBLE, vk::ImageCreateFlags::CUBE_COMPATIBLE.as_raw());
    assert_eq!(vkraw::BUFFER_USAGE_STORAGE_BUFFER, vk::BufferUsageFlags::STORAGE_BUFFER.as_raw());
    assert_eq!(
        vkraw::BUFFER_USAGE_SHADER_DEVICE_ADDRESS,
        vk::BufferUsageFlags::SHADER_DEVICE_ADDRESS.as_raw()
    );
    assert_eq!(
        vkraw::BUFFER_USAGE_ACCELERATION_STRUCTURE_STORAGE_KHR,
        vk::BufferUsageFlags::ACCELERATION_STRUCTURE_STORAGE_KHR.as_raw()
    );
    assert_eq!(
        vkraw::DESCRIPTOR_POOL_CREATE_FREE_DESCRIPTOR_SET,
        vk::DescriptorPoolCreateFlags::FREE_DESCRIPTOR_SET.as_raw()
    );
    assert_eq!(
        vkraw::DESCRIPTOR_POOL_CREATE_UPDATE_AFTER_BIND,
        vk::DescriptorPoolCreateFlags::UPDATE_AFTER_BIND.as_raw()
    );
    assert_eq!(
        vkraw::BUILD_ACCELERATION_STRUCTURE_PREFER_FAST_TRACE_KHR,
        vk::BuildAccelerationStructureFlagsKHR::PREFER_FAST_TRACE.as_raw()
    );
    assert_eq!(vkraw::DEBUG_SEVERITY_VERBOSE, vk::DebugUtilsMessageSeverityFlagsEXT::VERBOSE.as_raw());
    assert_eq!(vkraw::DEBUG_SEVERITY_INFO, vk::DebugUtilsMessageSeverityFlagsEXT::INFO.as_raw());
    assert_eq!(vkraw::DEBUG_SEVERITY_WARNING, vk::DebugUtilsMessageSeverityFlagsEXT::WARNING.as_raw());
    assert_eq!(vkraw::DEBUG_SEVERITY_ERROR, vk::DebugUtilsMessageSeverityFlagsEXT::ERROR.as_raw());
}
