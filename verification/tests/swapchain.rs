use zenith::deletion_queue::DeviceOp;
use zenith::extent::Extent2D;
use zenith::extent::SurfaceCapabilities;
use zenith::layout::ImageAspect;
use zenith::layout::ImageSubresourceRange;
use zenith::swapchain::AcquireInfo;
use zenith::swapchain::PresentInfo;
use zenith::swapchain::Swapchain;
use zenith::swapchain::SwapchainCreateInfo;
use zenith::swapchain::SwapchainError;
use zenith::util::ImageViewCreateInfo;

fn caps() -> SurfaceCapabilities {
    SurfaceCapabilities {
        min_image_count: 3,
        current_extent: Extent2D { width: u32::MAX, height: u32::MAX },
        min_image_extent: Extent2D { width: 64, height: 64 },
        max_image_extent: Extent2D { width: 4096, height: 4096 },
    }
}

fn chain() -> Swapchain {
    match Swapchain::new(
        900,
        vec![10, 11, 12],
        vec![20, 21, 22],
        caps(),
        Extent2D { width: 1700, height: 900 },
    ) {
        Ok(swapchain) => swapchain,
        Err(_) => panic!("three views for three images"),
    }
}

#[test]
fn swapchain_keeps_what_it_was_made_from() {
    let swapchain = chain();
    assert_eq!(swapchain.swapchain(), 900);
    assert_eq!(swapchain.image_count(), 3);
    assert_eq!(swapchain.extent(), Extent2D { width: 1700, height: 900 });
    assert_eq!(swapchain.format(), 44);
    assert_eq!(swapchain.get_image(0), 10);
    assert_eq!(swapchain.get_image(1), 11);
    assert_eq!(swapchain.get_image(2), 12);
}

#[test]
fn swapchain_extent_is_clamped() {
    let made = Swapchain::new(1, vec![], vec![], caps(), Extent2D { width: 5000, height: 10 });
    match made {
        Ok(swapchain) => {
            assert_eq!(swapchain.extent(), Extent2D { width: 4096, height: 64 });
            assert_eq!(swapchain.image_count(), 0);
        }
        Err(_) => panic!("no images need no views"),
    }
}

#[test]
fn swapchain_extent_follows_the_surface() {
    let mut fixed = caps();
    fixed.current_extent = Extent2D { width: 800, height: 600 };
    match Swapchain::new(1, vec![1], vec![2], fixed, Extent2D { width: 1700, height: 900 }) {
        Ok(swapchain) => assert_eq!(swapchain.extent(), Extent2D { width: 800, height: 600 }),
        Err(_) => panic!("one view for one image"),
    }
}

#[test]
fn swapchain_needs_one_view_per_image() {
    let extent = Extent2D { width: 1700, height: 900 };
    assert!(matches!(
        Swapchain::new(1, vec![10, 11], vec![20], caps(), extent),
        Err(SwapchainError::ViewCountMismatch)
    ));
    assert!(matches!(
        Swapchain::new(1, vec![], vec![20], caps(), extent),
        Err(SwapchainError::ViewCountMismatch)
    ));
}

#[test]
fn image_lookup_knows_its_limits() {
    let swapchain = chain();
    assert_eq!(swapchain.image_at(0), Some(10));
    assert_eq!(swapchain.image_at(2), Some(12));
    assert_eq!(swapchain.image_at(3), None);
    assert_eq!(swapchain.image_at(u32::MAX), None);
    assert!(swapchain.contains_image(11));
    assert!(!swapchain.contains_image(20));
    assert!(!swapchain.contains_image(900));
}

#[test]
fn create_info_is_fixed_but_for_surface_mode_and_extent() {
    let extent = Extent2D { width: 1700, height: 900 };
    let expected = SwapchainCreateInfo {
        surface: 5,
        min_image_count: 3,
        image_format: 44,
        image_color_space: 0,
        image_extent: extent,
        image_array_layers: 1,
        image_usage: 0x12,
        image_sharing_mode: 0,
        pre_transform: 1,
        composite_alpha: 1,
        present_mode: 2,
        clipped: true,
        old_swapchain: 0,
    };
    assert_eq!(Swapchain::create_info(&caps(), 5, 2, extent, None), expected);
}

#[test]
fn create_info_clamps_the_desired_extent() {
    let extent = Extent2D { width: 5000, height: 10 };
    assert_eq!(
        Swapchain::create_info(&caps(), 5, 2, extent, None).image_extent,
        Extent2D { width: 4096, height: 64 }
    );
    let extent = Extent2D { width: 5000, height: 5000 };
    assert_eq!(
        Swapchain::create_info(&caps(), 5, 2, extent, None).image_extent,
        Extent2D { width: 4096, height: 4096 }
    );
}

#[test]
fn create_info_takes_the_extent_of_a_surface_that_has_one() {
    let mut fixed = caps();
    fixed.current_extent = Extent2D { width: 800, height: 600 };
    let extent = Extent2D { width: 1700, height: 900 };
    assert_eq!(
        Swapchain::create_info(&fixed, 5, 2, extent, None).image_extent,
        Extent2D { width: 800, height: 600 }
    );
}

#[test]
fn swapchain_is_created_with_the_extent_it_holds() {
    let mut fixed = caps();
    fixed.current_extent = Extent2D { width: 800, height: 600 };
    let asked = [
        Extent2D { width: 1700, height: 900 },
        Extent2D { width: 5000, height: 10 },
        Extent2D { width: 0, height: u32::MAX },
    ];
    for surface in [caps(), fixed] {
        for extent in asked {
            let info = Swapchain::create_info(&surface, 5, 2, extent, None);
            match Swapchain::new(1, vec![10], vec![20], surface, extent) {
                Ok(swapchain) => assert_eq!(swapchain.extent(), info.image_extent),
                Err(_) => panic!("one view for one image"),
            }
        }
    }
}

#[test]
fn create_info_names_the_swapchain_it_replaces() {
    let old = chain();
    let extent = Extent2D { width: 1700, height: 900 };
    let info = Swapchain::create_info(&caps(), 5, 0, extent, Some(&old));
    assert_eq!(info.old_swapchain, 900);
    assert_eq!(info.present_mode, 0);
}

#[test]
fn swapchain_views_cover_the_whole_image() {
    assert_eq!(
        Swapchain::view_info(10),
        ImageViewCreateInfo {
            image: 10,
            view_type: 1,
            format: 44,
            subresource_range: ImageSubresourceRange {
                aspect: ImageAspect::Color,
                base_mip_level: 0,
                level_count: u32::MAX,
                base_array_layer: 0,
                layer_count: u32::MAX,
            },
        }
    );
}

#[test]
fn acquire_never_times_out_and_uses_no_fence() {
    assert_eq!(
        chain().acquire_next_image(77),
        AcquireInfo { swapchain: 900, timeout: u64::MAX, semaphore: 77, fence: 0 }
    );
}

#[test]
fn present_waits_for_the_given_semaphore() {
    assert_eq!(
        chain().present(4, 78, 2),
        PresentInfo { queue: 4, swapchain: 900, wait_semaphore: 78, image_index: 2 }
    );
}

#[test]
fn destroy_frees_the_swapchain_and_the_views_but_no_image() {
    assert_eq!(
        chain().destroy(),
        vec![
            DeviceOp::DestroySwapchain { swapchain: 900 },
            DeviceOp::DestroyImageView { view: 20 },
            DeviceOp::DestroyImageView { view: 21 },
            DeviceOp::DestroyImageView { view: 22 },
        ]
    );
}
