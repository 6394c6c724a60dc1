//! Two-dimensional extents, the surface's limits on them, and the sizes that
//! are derived from an extent.

use vstd::prelude::*;

verus! {

/// Width and height of an image, in pixels.
#[derive(Clone, Copy, Debug, PartialEq, Eq, Structural)]
pub struct Extent2D {
    pub width: u32,
    pub height: u32,
}

/// What a surface reports of the swapchains it can carry, as far as the
/// engine reads it.
#[derive(Clone, Copy, Debug, PartialEq, Eq, Structural)]
pub struct SurfaceCapabilities {
    pub min_image_count: u32,
    pub current_extent: Extent2D,
    pub min_image_extent: Extent2D,
    pub max_image_extent: Extent2D,
}

/// The width that a surface reports when it takes its size from the
/// swapchain: "any size".
pub const ANY_EXTENT: u32 = 0xFFFF_FFFF;

/// Side length of the square workgroup that the compute effects are written
/// for.
pub const WORKGROUP_SIZE: u32 = 16;

/// `desired`, raised to `lo` after it was lowered to `hi`: the lower bound
/// wins where the two bounds cross.
pub open spec fn clamp_dimension(lo: u32, hi: u32, desired: u32) -> u32 {
    let capped = if desired < hi { desired } else { hi };
    if capped < lo { lo } else { capped }
}

/// The extent a swapchain on a surface with capabilities `caps` has, when the
/// window asks for `desired_width` x `desired_height`.
pub open spec fn swapchain_extent(
    caps: SurfaceCapabilities,
    desired_width: u32,
    desired_height: u32,
) -> Extent2D {
    if caps.current_extent.width != ANY_EXTENT {
        caps.current_extent
    } else {
        Extent2D {
            width: clamp_dimension(
                caps.min_image_extent.width,
                caps.max_image_extent.width,
                desired_width,
            ),
            height: clamp_dimension(
                caps.min_image_extent.height,
                caps.max_image_extent.height,
                desired_height,
            ),
        }
    }
}

/// Number of workgroups of `WORKGROUP_SIZE` that cover `size` pixels: the
/// quotient, rounded up.
pub open spec fn group_count_spec(size: u32) -> int {
    (size as int + WORKGROUP_SIZE as int - 1) / (WORKGROUP_SIZE as int)
}

fn clamp_to(lo: u32, hi: u32, desired: u32) -> (r: u32)
    ensures
        r == clamp_dimension(lo, hi, desired),
{
    let capped: u32 = if desired < hi { desired } else { hi };
    if capped < lo { lo } else { capped }
}

/// Chooses the swapchain's extent. A surface with a size of its own dictates
/// it; one that reports the "any size" width takes the desired size, brought
/// into the range between its smallest and largest extent.
pub fn find_swapchain_extent(
    caps: SurfaceCapabilities,
    desired_width: u32,
    desired_height: u32,
) -> (extent: Extent2D)
    ensures
        extent == swapchain_extent(caps, desired_width, desired_height),
{
    if caps.current_extent.width != ANY_EXTENT {
        return caps.current_extent;
    }
    Extent2D {
        width: clamp_to(caps.min_image_extent.width, caps.max_image_extent.width, desired_width),
        height: clamp_to(
            caps.min_image_extent.height,
            caps.max_image_extent.height,
            desired_height,
        ),
    }
}

/// Number of workgroups to dispatch along one axis of an image that is `size`
/// pixels long.
pub fn group_count(size: u32) -> (groups: u32)
    ensures
        groups == group_count_spec(size),
        groups as int * 16 >= size as int,
        size as int > (groups as int - 1) * 16,
{
    let whole: u32 = size / WORKGROUP_SIZE;
    if size % WORKGROUP_SIZE == 0 {
        whole
    } else {
        whole + 1
    }
}

/// Where the surface's bounds do not cross, the chosen dimension lies between
/// them, and a desired size that already does is kept.
pub proof fn lemma_clamp_in_range(lo: u32, hi: u32, desired: u32)
    requires
        lo <= hi,
    ensures
        lo <= clamp_dimension(lo, hi, desired) <= hi,
        lo <= desired <= hi ==> clamp_dimension(lo, hi, desired) == desired,
{
}

/// A surface that has a size of its own keeps it, whatever is asked for.
pub proof fn lemma_fixed_extent_wins(caps: SurfaceCapabilities, w1: u32, h1: u32, w2: u32, h2: u32)
    requires
        caps.current_extent.width != ANY_EXTENT,
    ensures
        swapchain_extent(caps, w1, h1) == caps.current_extent,
        swapchain_extent(caps, w1, h1) == swapchain_extent(caps, w2, h2),
{
}

} // verus!
