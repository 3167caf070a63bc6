use crystal_vk::pipeline::attribute::Attribute;
use crystal_vk::pipeline::descriptor::descriptor_set_layout::descriptor_set::{
    buffer_write, combined_image_sampler_write, DescriptorResource, DescriptorWrite, NoSuchBinding,
};
use crystal_vk::pipeline::descriptor::descriptor_set_layout::{
    layout_bindings, DescriptorSetLayoutBinding, LayoutAllocInfo,
};
use crystal_vk::pipeline::descriptor::{DescriptorPoolPlan, DescriptorPoolSize};
use crystal_vk::pipeline::graphics::{
    graphics_vertex_input, uses_whole_target, whole_target_scissor, Scissor, VertexInputAttribute,
};
use crystal_vk::pipeline::raytrace::{raytrace_pipeline_plan, ShaderGroup};
use crystal_vk::pipeline::PipelineConfigError;
use crystal_vk::vkraw;

const UNUSED: u32 = u32::MAX;

fn general(i: u32) -> ShaderGroup {
    ShaderGroup {
        ty: vkraw::SHADER_GROUP_GENERAL,
        general_shader: i,
        closest_hit_shader: UNUSED,
        any_hit_shader: UNUSED,
        intersection_shader: UNUSED,
    }
}

#[test]
fn raytrace_groups_follow_shader_roles() {
    let stages = vec![
        vkraw::SHADER_STAGE_CLOSEST_HIT_KHR,
        vkraw::SHADER_STAGE_MISS_KHR,
        vkraw::SHADER_STAGE_ANY_HIT_KHR,
        vkraw::SHADER_STAGE_RAYGEN_KHR,
        vkraw::SHADER_STAGE_INTERSECTION_KHR,
        vkraw::SHADER_STAGE_CLOSEST_HIT_KHR,
        vkraw::SHADER_STAGE_CALLABLE_KHR,
        0x1,
        vkraw::SHADER_STAGE_INTERSECTION_KHR,
        vkraw::SHADER_STAGE_ANY_HIT_KHR,
    ];
    let plan = raytrace_pipeline_plan(&stages).unwrap();
    assert_eq!(plan.max_pipeline_ray_recursion_depth, 1);
    assert_eq!(
        plan.groups,
        vec![
            general(3),
            general(1),
            general(6),
            ShaderGroup {
                ty: vkraw::SHADER_GROUP_TRIANGLES_HIT_GROUP,
                general_shader: UNUSED,
                closest_hit_shader: 0,
                any_hit_shader: 2,
                intersection_shader: UNUSED,
            },
            ShaderGroup {
                ty: vkraw::SHADER_GROUP_TRIANGLES_HIT_GROUP,
                general_shader: UNUSED,
                closest_hit_shader: 5,
                any_hit_shader: 9,
                intersection_shader: UNUSED,
            },
            ShaderGroup {
                ty: vkraw::SHADER_GROUP_PROCEDURAL_HIT_GROUP,
                general_shader: UNUSED,
                closest_hit_shader: UNUSED,
                any_hit_shader: UNUSED,
                intersection_shader: 4,
            },
            ShaderGroup {
                ty: vkraw::SHADER_GROUP_PROCEDURAL_HIT_GROUP,
                general_shader: UNUSED,
                closest_hit_shader: UNUSED,
                any_hit_shader: UNUSED,
                intersection_shader: 8,
            },
        ]
    );
    // law: one group per shader that is neither any hit nor unrecognised
    assert_eq!(plan.groups.len(), stages.len() - 2 - 1);
}

#[test]
fn raytrace_procedural_groups_take_leftover_any_hits() {
    let stages = vec![
        vkraw::SHADER_STAGE_ANY_HIT_KHR,
        vkraw::SHADER_STAGE_INTERSECTION_KHR,
        vkraw::SHADER_STAGE_ANY_HIT_KHR,
        vkraw::SHADER_STAGE_CLOSEST_HIT_KHR,
    ];
    let plan = raytrace_pipeline_plan(&stages).unwrap();
    assert_eq!(plan.groups[0].closest_hit_shader, 3);
    assert_eq!(plan.groups[0].any_hit_shader, 0);
    assert_eq!(plan.groups[1].intersection_shader, 1);
    assert_eq!(plan.groups[1].any_hit_shader, 2);
}

#[test]
fn raytrace_stage_priority_raygen_first() {
    let stages = vec![vkraw::SHADER_STAGE_RAYGEN_KHR | vkraw::SHADER_STAGE_MISS_KHR];
    let plan = raytrace_pipeline_plan(&stages).unwrap();
    assert_eq!(plan.groups, vec![general(0)]);
}

#[test]
fn raytrace_without_shaders_is_refused() {
    assert_eq!(raytrace_pipeline_plan(&vec![]), Err(PipelineConfigError::NoShaders));
}

#[test]
fn vertex_input_formats_stride_and_locations() {
    let attributes = vec![
        Attribute { size: 12, offset: 0 },
        Attribute { size: 8, offset: 12 },
        Attribute { size: 4, offset: 20 },
        Attribute { size: 16, offset: 24 },
        Attribute { size: 5, offset: 40 },
    ];
    let plan = graphics_vertex_input(2, &attributes).unwrap();
    assert_eq!(plan.binding, 0);
    assert_eq!(plan.stride, 45);
    assert_eq!(plan.input_rate, vkraw::VERTEX_INPUT_RATE_VERTEX);
    let formats: Vec<i32> = plan.attributes.iter().map(|a| a.format).collect();
    assert_eq!(
        formats,
        vec![
            vkraw::FORMAT_R32G32B32_SFLOAT,
            vkraw::FORMAT_R32G32_SFLOAT,
            vkraw::FORMAT_R32_SFLOAT,
            vkraw::FORMAT_R32G32B32A32_SFLOAT,
            vkraw::FORMAT_R32G32B32_SFLOAT,
        ]
    );
    assert_eq!(
        plan.attributes[3],
        VertexInputAttribute { location: 3, binding: 0, format: vkraw::FORMAT_R32G32B32A32_SFLOAT, offset: 24 }
    );
}

#[test]
fn graphics_pipeline_without_shaders_is_refused() {
    assert_eq!(graphics_vertex_input(0, &vec![]), Err(PipelineConfigError::NoShaders));
}

#[test]
fn descriptor_pool_sets_and_flags() {
    let sizes = vec![
        DescriptorPoolSize { ty: 1, descriptor_count: 3 },
        DescriptorPoolSize { ty: 6, descriptor_count: 4 },
    ];
    let plan = DescriptorPoolPlan::new(&sizes);
    assert_eq!(plan.max_sets, 7);
    assert_eq!(plan.flags, 0);
}

fn layout_alloc() -> Vec<(u32, LayoutAllocInfo)> {
    vec![
        (0, LayoutAllocInfo { stages: 0x10, typ: 1, count: 1 }),
        (3, LayoutAllocInfo { stages: 0x1, typ: 6, count: 2 }),
    ]
}

#[test]
fn layout_bindings_in_binding_order() {
    assert_eq!(
        layout_bindings(&layout_alloc()),
        vec![
            DescriptorSetLayoutBinding { binding: 0, descriptor_type: 1, descriptor_count: 1, stage_flags: 0x10 },
            DescriptorSetLayoutBinding { binding: 3, descriptor_type: 6, descriptor_count: 2, stage_flags: 0x1 },
        ]
    );
}

#[test]
fn image_sampler_write_uses_binding_type() {
    let w = combined_image_sampler_write(500, &layout_alloc(), 11, 12, 0, 1, 1).unwrap();
    assert_eq!(
        w,
        DescriptorWrite {
            dst_set: 500,
            dst_binding: 0,
            dst_array_element: 1,
            descriptor_type: 1,
            descriptor_count: 1,
            resource: DescriptorResource::CombinedImageSampler {
                image_view: 11,
                image_layout: vkraw::IMAGE_LAYOUT_SHADER_READ_ONLY_OPTIMAL,
                sampler: 12,
            },
        }
    );
}

#[test]
fn buffer_write_uses_binding_type() {
    let w = buffer_write(500, &layout_alloc(), 40, 256, 3, 0, 2).unwrap();
    assert_eq!(w.descriptor_type, 6);
    assert_eq!(w.descriptor_count, 1);
    assert_eq!(w.resource, DescriptorResource::Buffer { buffer: 40, offset: 0, range: 256 });
}

#[test]
fn write_to_missing_binding_is_refused() {
    assert_eq!(buffer_write(500, &layout_alloc(), 40, 256, 1, 0, 1), Err(NoSuchBinding { binding: 1 }));
    assert_eq!(combined_image_sampler_write(500, &layout_alloc(), 1, 2, 7, 0, 1), Err(NoSuchBinding { binding: 7 }));
}

#[test]
fn graphics_pipeline_defaults_to_the_whole_target() {
    assert!(uses_whole_target(0, 1));
    assert!(uses_whole_target(2, 0));
    assert!(!uses_whole_target(1, 1));
    assert_eq!(whole_target_scissor([800, 600]), Scissor { x: 0, y: 0, width: 800, height: 600 });
}
