use crystal_vk::device::physical_device::{
    build_queue_families_info, depth_format_candidates, device_extensions, find_depth_format, find_memory_type_index,
    query_extensions_support, FormatProperties, NoSuitableMemoryType, QueueFamilyProperties,
};
use crystal_vk::device::queue::{instantiate_plan, QueueFamilyInfo};
use crystal_vk::instance::extensions::{instance_create_flags, instance_extensions};
use crystal_vk::vkraw;

#[test]
fn memory_type_first_allowed_with_all_properties() {
    let types = vec![0x1, 0x6, 0x7, 0x6];
    assert_eq!(find_memory_type_index(&types, 0x6, 0b1111), Ok(1));
    assert_eq!(find_memory_type_index(&types, 0x6, 0b1100), Ok(2));
    assert_eq!(find_memory_type_index(&types, 0x1, 0b0100), Ok(2));
}

#[test]
fn memory_type_none_suitable() {
    let types = vec![0x1, 0x6];
    assert_eq!(find_memory_type_index(&types, 0x8, u32::MAX), Err(NoSuitableMemoryType));
    assert_eq!(find_memory_type_index(&types, 0x1, 0b10), Err(NoSuitableMemoryType));
    assert_eq!(find_memory_type_index(&vec![], 0, u32::MAX), Err(NoSuitableMemoryType));
}

#[test]
fn depth_format_prefers_d32() {
    let f = vkraw::FORMAT_FEATURE_DEPTH_STENCIL_ATTACHMENT;
    let both = vec![
        FormatProperties { linear_tiling_features: 0, optimal_tiling_features: f },
        FormatProperties { linear_tiling_features: f, optimal_tiling_features: f },
    ];
    assert_eq!(depth_format_candidates(), vec![vkraw::FORMAT_D32_SFLOAT_S8_UINT, vkraw::FORMAT_D24_UNORM_S8_UINT]);
    assert_eq!(find_depth_format(vkraw::IMAGE_TILING_OPTIMAL, f, &both), Some(vkraw::FORMAT_D32_SFLOAT_S8_UINT));
    assert_eq!(find_depth_format(vkraw::IMAGE_TILING_LINEAR, f, &both), Some(vkraw::FORMAT_D24_UNORM_S8_UINT));
    assert_eq!(find_depth_format(5, f, &both), None);
    let none = vec![FormatProperties { linear_tiling_features: 0, optimal_tiling_features: 0 }; 2];
    assert_eq!(find_depth_format(vkraw::IMAGE_TILING_OPTIMAL, f, &none), None);
}

#[test]
fn queue_families_skip_empty_and_group_disjoint_flags() {
    let families = vec![
        QueueFamilyProperties { queue_flags: 0b111, queue_count: 2 },
        QueueFamilyProperties { queue_flags: 0b010, queue_count: 0 },
        QueueFamilyProperties { queue_flags: 0b110, queue_count: 1 },
        QueueFamilyProperties { queue_flags: 0b1000, queue_count: 3 },
    ];
    let present = vec![true, false, false, true];
    let infos = build_queue_families_info(&families, &present);
    assert_eq!(
        infos,
        vec![
            QueueFamilyInfo { flags: 0b111, index: 0, queue_count: 2, present_support: true },
            QueueFamilyInfo { flags: 0b1000, index: 2, queue_count: 3, present_support: true },
        ]
    );
}

#[test]
fn queue_family_index_counts_only_families_with_queues() {
    let families = vec![
        QueueFamilyProperties { queue_flags: 0x4, queue_count: 0 }, // transfer only, no queue
        QueueFamilyProperties { queue_flags: vkraw::QUEUE_GRAPHICS, queue_count: 1 },
    ];
    assert_eq!(
        build_queue_families_info(&families, &vec![false, false]),
        vec![QueueFamilyInfo { flags: vkraw::QUEUE_GRAPHICS, index: 0, queue_count: 1, present_support: false }]
    );
}

#[test]
fn queue_families_of_a_device_without_queues_are_empty() {
    let families = vec![QueueFamilyProperties { queue_flags: 1, queue_count: 0 }];
    assert!(build_queue_families_info(&families, &vec![false]).is_empty());
}

#[test]
fn extensions_requested_and_supported_in_device_order() {
    let requested: Vec<Vec<u8>> = vec![b"VK_KHR_swapchain".to_vec(), b"VK_EXT_missing".to_vec(), b"VK_A".to_vec()];
    let supported: Vec<Vec<u8>> = vec![b"VK_A".to_vec(), b"VK_B".to_vec(), b"VK_KHR_swapchain".to_vec()];
    assert_eq!(
        query_extensions_support(&requested, &supported),
        vec![b"VK_A".to_vec(), b"VK_KHR_swapchain".to_vec()]
    );
}

#[test]
fn instantiate_only_families_with_queues() {
    let a = QueueFamilyInfo { flags: 1, index: 0, queue_count: 2, present_support: false };
    let b = QueueFamilyInfo { flags: 2, index: 1, queue_count: 0, present_support: false };
    assert_eq!(instantiate_plan(&vec![a, b]), vec![a]);
}

#[test]
fn instance_extensions_in_order() {
    let display = vec![b"VK_KHR_surface".to_vec(), b"VK_KHR_xcb_surface".to_vec()];
    assert_eq!(
        instance_extensions(true, true, &display),
        vec![
            b"VK_EXT_debug_utils".to_vec(),
            b"VK_KHR_portability_enumeration".to_vec(),
            b"VK_KHR_surface".to_vec(),
            b"VK_KHR_xcb_surface".to_vec(),
        ]
    );
    assert_eq!(instance_extensions(false, false, &display), display);
    assert_eq!(instance_extensions(true, false, &vec![]), vec![b"VK_EXT_debug_utils".to_vec()]);
}

#[test]
fn instance_flags_enumerate_portability_only_when_asked() {
    assert_eq!(instance_create_flags(true), vkraw::INSTANCE_CREATE_ENUMERATE_PORTABILITY_KHR);
    assert_eq!(instance_create_flags(false), 0);
}

#[test]
fn device_extensions_add_portability_subset_when_asked() {
    let requested: Vec<Vec<u8>> = vec![b"VK_KHR_swapchain".to_vec(), b"VK_EXT_missing".to_vec()];
    let supported: Vec<Vec<u8>> = vec![b"VK_A".to_vec(), b"VK_KHR_swapchain".to_vec()];
    assert_eq!(
        device_extensions(&requested, &supported, true),
        vec![b"VK_KHR_swapchain".to_vec(), b"VK_KHR_portability_subset".to_vec()]
    );
    assert_eq!(device_extensions(&requested, &supported, false), vec![b"VK_KHR_swapchain".to_vec()]);
}
