use zenith::extent::find_swapchain_extent;
use zenith::extent::group_count;
use zenith::extent::Extent2D;
use zenith::extent::SurfaceCapabilities;
use zenith::extent::ANY_EXTENT;
use zenith::extent::WORKGROUP_SIZE;

fn caps(current: Extent2D) -> SurfaceCapabilities {
    SurfaceCapabilities {
        min_image_count: 2,
        current_extent: current,
        min_image_extent: Extent2D { width: 64, height: 64 },
        max_image_extent: Extent2D { width: 4096, height: 4096 },
    }
}

fn any_size() -> SurfaceCapabilities {
    caps(Extent2D { width: u32::MAX, height: u32::MAX })
}

#[test]
fn any_extent_is_the_largest_width() {
    assert_eq!(ANY_EXTENT, u32::MAX);
}

#[test]
fn desired_extent_inside_the_range_is_kept() {
    assert_eq!(
        find_swapchain_extent(any_size(), 1920, 1080),
        Extent2D { width: 1920, height: 1080 }
    );
}

#[test]
fn desired_extent_below_the_range_is_raised() {
    assert_eq!(find_swapchain_extent(any_size(), 50, 50), Extent2D { width: 64, height: 64 });
}

#[test]
fn desired_extent_above_the_range_is_lowered() {
    assert_eq!(
        find_swapchain_extent(any_size(), 5000, 5000),
        Extent2D { width: 4096, height: 4096 }
    );
}

#[test]
fn each_dimension_is_clamped_by_itself() {
    assert_eq!(find_swapchain_extent(any_size(), 10, 9000), Extent2D { width: 64, height: 4096 });
    assert_eq!(find_swapchain_extent(any_size(), 64, 4096), Extent2D { width: 64, height: 4096 });
}

#[test]
fn surface_with_a_size_of_its_own_dictates_it() {
    let fixed = caps(Extent2D { width: 800, height: 600 });
    let expected = Extent2D { width: 800, height: 600 };
    assert_eq!(find_swapchain_extent(fixed, 1920, 1080), expected);
    assert_eq!(find_swapchain_extent(fixed, 50, 50), expected);
    assert_eq!(find_swapchain_extent(fixed, 5000, 5000), expected);
    assert_eq!(find_swapchain_extent(fixed, 0, 0), expected);
}

#[test]
fn only_the_width_marks_any_size() {
    let odd = caps(Extent2D { width: 800, height: u32::MAX });
    assert_eq!(find_swapchain_extent(odd, 100, 100), Extent2D { width: 800, height: u32::MAX });
    let any = caps(Extent2D { width: u32::MAX, height: 600 });
    assert_eq!(find_swapchain_extent(any, 100, 100), Extent2D { width: 100, height: 100 });
}

#[test]
fn crossed_bounds_give_the_lower_bound() {
    let crossed = SurfaceCapabilities {
        min_image_count: 1,
        current_extent: Extent2D { width: u32::MAX, height: 0 },
        min_image_extent: Extent2D { width: 500, height: 500 },
        max_image_extent: Extent2D { width: 100, height: 100 },
    };
    assert_eq!(find_swapchain_extent(crossed, 300, 50), Extent2D { width: 500, height: 500 });
}

#[test]
fn group_count_rounds_up() {
    assert_eq!(WORKGROUP_SIZE, 16);
    assert_eq!(group_count(1920), 120);
    assert_eq!(group_count(1080), 68);
    assert_eq!(group_count(0), 0);
    assert_eq!(group_count(1), 1);
    assert_eq!(group_count(15), 1);
    assert_eq!(group_count(16), 1);
    assert_eq!(group_count(17), 2);
    assert_eq!(group_count(1700), 107);
    assert_eq!(group_count(900), 57);
    assert_eq!(group_count(u32::MAX), 268_435_456);
}

#[test]
fn group_count_covers_every_pixel() {
    let mut size: u32 = 0;
    while size < 2000 {
        let groups = group_count(size);
        assert!(groups * 16 >= size);
        assert!(groups == 0 || (groups - 1) * 16 < size);
        size += 1;
    }
}
