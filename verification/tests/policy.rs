//! Selection-policy tests: accelerator choice, queue-family resolution, and
//! the presentation-chain tie-breaks.

use zinnia::device::{
    command_pool_family, create_logical_device, find_queue_families, pick_physical_device,
    AcceleratorInfo, DeviceClass, QueueAssignment, QueueFamilyInfo,
};
use zinnia::swapchain::{
    choose_image_count, choose_sharing_mode, choose_swapchain_extent, choose_swapchain_format,
    choose_swapchain_present_mode, create_swap_chain, Extent2d, ImageSharing, SurfaceCapsInfo,
    SurfaceFormatInfo, SwapChainSupportDetails, COLOR_SPACE_SRGB_NONLINEAR, EXTENT_TRACKS_WINDOW,
    FORMAT_B8G8R8A8_SRGB, PRESENT_MODE_FIFO, PRESENT_MODE_MAILBOX,
};
use zinnia::SetupError;

fn accel(class: DeviceClass, geometry: bool) -> AcceleratorInfo {
    AcceleratorInfo {
        class,
        supports_geometry_shader: geometry,
    }
}

#[test]
fn discrete_preferred_over_integrated() {
    let devices = vec![
        accel(DeviceClass::Integrated, true),
        accel(DeviceClass::Discrete, true),
    ];
    assert_eq!(pick_physical_device(&devices), Ok(1));
}

#[test]
fn discrete_preferred_regardless_of_order() {
    let devices = vec![
        accel(DeviceClass::Discrete, true),
        accel(DeviceClass::Integrated, true),
    ];
    assert_eq!(pick_physical_device(&devices), Ok(0));

    let devices = vec![
        accel(DeviceClass::Other, true),
        accel(DeviceClass::Integrated, true),
        accel(DeviceClass::Discrete, true),
        accel(DeviceClass::Discrete, true),
    ];
    assert_eq!(pick_physical_device(&devices), Ok(2));
}

#[test]
fn discrete_without_feature_is_rejected() {
    let devices = vec![
        accel(DeviceClass::Discrete, false),
        accel(DeviceClass::Integrated, true),
    ];
    assert_eq!(pick_physical_device(&devices), Ok(1));
}

#[test]
fn first_integrated_wins_without_discrete() {
    let devices = vec![
        accel(DeviceClass::Integrated, true),
        accel(DeviceClass::Integrated, true),
        accel(DeviceClass::Integrated, true),
    ];
    assert_eq!(pick_physical_device(&devices), Ok(0));
}

#[test]
fn no_feature_means_no_device() {
    let devices = vec![
        accel(DeviceClass::Discrete, false),
        accel(DeviceClass::Integrated, false),
        accel(DeviceClass::Other, false),
    ];
    assert_eq!(
        pick_physical_device(&devices),
        Err(SetupError::NoSuitableAccelerator)
    );
}

#[test]
fn other_class_devices_are_never_selected() {
    let devices = vec![accel(DeviceClass::Other, true)];
    assert_eq!(
        pick_physical_device(&devices),
        Err(SetupError::NoSuitableAccelerator)
    );
}

#[test]
fn empty_accelerator_list_fails() {
    assert_eq!(
        pick_physical_device(&Vec::new()),
        Err(SetupError::NoSuitableAccelerator)
    );
    assert_eq!(
        SetupError::NoSuitableAccelerator.message(),
        "no suitable accelerator"
    );
}

fn family(graphics: bool, present: bool) -> QueueFamilyInfo {
    QueueFamilyInfo {
        supports_graphics: graphics,
        supports_present: present,
    }
}

#[test]
fn split_roles_resolve_to_two_indices() {
    let families = vec![family(true, false), family(false, true)];
    let qa = find_queue_families(&families).unwrap();
    assert_eq!(qa.graphics, 0);
    assert_eq!(qa.present, 1);
    assert_ne!(qa.graphics, qa.present);

    let sharing = choose_sharing_mode(&qa);
    assert_eq!(sharing.mode, ImageSharing::Concurrent);
    assert_eq!(sharing.queue_family_indices, vec![0, 1]);
}

#[test]
fn shared_role_resolves_to_one_index() {
    let families = vec![family(true, true), family(true, false)];
    let qa = find_queue_families(&families).unwrap();
    assert_eq!(qa.graphics, 0);
    assert_eq!(qa.present, 0);

    let sharing = choose_sharing_mode(&qa);
    assert_eq!(sharing.mode, ImageSharing::Exclusive);
    assert!(sharing.queue_family_indices.is_empty());
}

#[test]
fn first_index_wins_for_each_role() {
    let families = vec![
        family(false, false),
        family(true, false),
        family(true, true),
        family(false, true),
    ];
    let qa = find_queue_families(&families).unwrap();
    assert_eq!(qa.graphics, 1);
    assert_eq!(qa.present, 2);
}

#[test]
fn missing_graphics_role_fails() {
    let families = vec![family(false, true)];
    assert_eq!(
        find_queue_families(&families),
        Err(SetupError::NoGraphicsQueue)
    );
    assert_eq!(
        SetupError::NoGraphicsQueue.message(),
        "no suitable graphics queue"
    );
}

#[test]
fn missing_present_role_fails() {
    let families = vec![family(true, false)];
    assert_eq!(
        find_queue_families(&families),
        Err(SetupError::NoPresentQueue)
    );
    assert_eq!(
        SetupError::NoPresentQueue.message(),
        "no suitable present queue"
    );
}

#[test]
fn empty_family_list_fails_on_graphics() {
    assert_eq!(
        find_queue_families(&Vec::new()),
        Err(SetupError::NoGraphicsQueue)
    );
}

#[test]
fn logical_device_collapses_shared_family() {
    let plan = create_logical_device(&QueueAssignment {
        graphics: 3,
        present: 3,
    });
    assert!(plan.use_single_queue);
    assert_eq!(plan.unique_family_indices, vec![3]);
}

#[test]
fn logical_device_requests_both_families() {
    let plan = create_logical_device(&QueueAssignment {
        graphics: 0,
        present: 2,
    });
    assert!(!plan.use_single_queue);
    assert_eq!(plan.unique_family_indices, vec![0, 2]);
}

#[test]
fn command_pool_uses_present_family() {
    let qa = QueueAssignment {
        graphics: 1,
        present: 2,
    };
    assert_eq!(command_pool_family(&qa), 2);
}

#[test]
fn preferred_format_is_chosen_when_present() {
    let formats = vec![
        SurfaceFormatInfo {
            format: 44,
            color_space: 0,
        },
        SurfaceFormatInfo {
            format: FORMAT_B8G8R8A8_SRGB,
            color_space: COLOR_SPACE_SRGB_NONLINEAR,
        },
        SurfaceFormatInfo {
            format: 97,
            color_space: 1,
        },
    ];
    let chosen = choose_swapchain_format(&formats);
    assert_eq!(chosen.format, FORMAT_B8G8R8A8_SRGB);
    assert_eq!(chosen.color_space, COLOR_SPACE_SRGB_NONLINEAR);
}

#[test]
fn format_falls_back_to_first_entry() {
    let formats = vec![
        SurfaceFormatInfo {
            format: 44,
            color_space: 5,
        },
        SurfaceFormatInfo {
            format: FORMAT_B8G8R8A8_SRGB,
            color_space: 9,
        },
        SurfaceFormatInfo {
            format: 12,
            color_space: COLOR_SPACE_SRGB_NONLINEAR,
        },
    ];
    let chosen = choose_swapchain_format(&formats);
    assert_eq!(
        chosen,
        SurfaceFormatInfo {
            format: 44,
            color_space: 5,
        }
    );
}

#[test]
fn mailbox_mode_is_chosen_when_listed() {
    let modes = vec![0, PRESENT_MODE_FIFO, PRESENT_MODE_MAILBOX];
    assert_eq!(choose_swapchain_present_mode(&modes), PRESENT_MODE_MAILBOX);
}

#[test]
fn fifo_is_chosen_even_when_not_listed() {
    let modes = vec![0, 3];
    assert_eq!(choose_swapchain_present_mode(&modes), PRESENT_MODE_FIFO);
    assert_eq!(
        choose_swapchain_present_mode(&Vec::new()),
        PRESENT_MODE_FIFO
    );
}

fn caps(current_width: u32, current_height: u32) -> SurfaceCapsInfo {
    SurfaceCapsInfo {
        min_image_count: 2,
        max_image_count: 8,
        current_extent: Extent2d {
            width: current_width,
            height: current_height,
        },
        min_image_extent: Extent2d {
            width: 200,
            height: 100,
        },
        max_image_extent: Extent2d {
            width: 1600,
            height: 900,
        },
    }
}

#[test]
fn sentinel_extent_uses_clamped_window_size() {
    let c = caps(EXTENT_TRACKS_WINDOW, 480);
    // Window smaller than the minimum in width, larger than the maximum in height.
    let extent = choose_swapchain_extent(&c, 100, 2000);
    assert_eq!(
        extent,
        Extent2d {
            width: 200,
            height: 900,
        }
    );
    // Window inside the bounds passes through unchanged.
    let extent = choose_swapchain_extent(&c, 800, 600);
    assert_eq!(
        extent,
        Extent2d {
            width: 800,
            height: 600,
        }
    );
}

#[test]
fn fixed_extent_is_used_verbatim() {
    let c = caps(640, 480);
    let extent = choose_swapchain_extent(&c, 1024, 768);
    assert_eq!(
        extent,
        Extent2d {
            width: 640,
            height: 480,
        }
    );
}

#[test]
fn image_count_is_min_plus_one() {
    let c = caps(640, 480);
    assert_eq!(choose_image_count(&c), 3);
}

#[test]
fn image_count_clamps_to_declared_maximum() {
    let mut c = caps(640, 480);
    c.min_image_count = 8;
    c.max_image_count = 8;
    assert_eq!(choose_image_count(&c), 8);
}

#[test]
fn zero_maximum_means_unbounded_image_count() {
    let mut c = caps(640, 480);
    c.min_image_count = 11;
    c.max_image_count = 0;
    assert_eq!(choose_image_count(&c), 12);
}

#[test]
fn full_negotiation_combines_all_rules() {
    let support = SwapChainSupportDetails {
        capabilities: caps(EXTENT_TRACKS_WINDOW, 480),
        formats: vec![
            SurfaceFormatInfo {
                format: 7,
                color_space: 3,
            },
            SurfaceFormatInfo {
                format: FORMAT_B8G8R8A8_SRGB,
                color_space: COLOR_SPACE_SRGB_NONLINEAR,
            },
        ],
        present_modes: vec![PRESENT_MODE_FIFO, PRESENT_MODE_MAILBOX],
    };
    let qa = QueueAssignment {
        graphics: 0,
        present: 1,
    };
    let plan = create_swap_chain(&support, &qa, 4000, 50);
    assert_eq!(plan.format.format, FORMAT_B8G8R8A8_SRGB);
    assert_eq!(plan.format.color_space, COLOR_SPACE_SRGB_NONLINEAR);
    assert_eq!(plan.present_mode, PRESENT_MODE_MAILBOX);
    assert_eq!(
        plan.extent,
        Extent2d {
            width: 1600,
            height: 100,
        }
    );
    assert_eq!(plan.image_count, 3);
    assert_eq!(plan.sharing.mode, ImageSharing::Concurrent);
    assert_eq!(plan.sharing.queue_family_indices, vec![0, 1]);
}

#[test]
fn exclusive_negotiation_names_no_families() {
    let support = SwapChainSupportDetails {
        capabilities: caps(640, 480),
        formats: vec![SurfaceFormatInfo {
            format: 7,
            color_space: 3,
        }],
        present_modes: vec![PRESENT_MODE_FIFO],
    };
    let qa = QueueAssignment {
        graphics: 0,
        present: 0,
    };
    let plan = create_swap_chain(&support, &qa, 4000, 50);
    assert_eq!(
        plan.format,
        SurfaceFormatInfo {
            format: 7,
            color_space: 3,
        }
    );
    assert_eq!(plan.present_mode, PRESENT_MODE_FIFO);
    assert_eq!(
        plan.extent,
        Extent2d {
            width: 640,
            height: 480,
        }
    );
    assert_eq!(plan.sharing.mode, ImageSharing::Exclusive);
    assert!(plan.sharing.queue_family_indices.is_empty());
}
