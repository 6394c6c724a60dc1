//! The chain of presentable images.

use vstd::prelude::*;
use crate::deletion_queue::DeviceOp;
use crate::extent::find_swapchain_extent;
use crate::extent::swapchain_extent;
use crate::extent::Extent2D;
use crate::extent::SurfaceCapabilities;
use crate::layout::whole_image;
use crate::layout::ImageAspect;
use crate::util::image_subresource_range;
use crate::util::ImageViewCreateInfo;
use crate::util::IMAGE_VIEW_TYPE_2D;

verus! {

/// Pixel format of every swapchain: 8-bit BGRA, unsigned normalized.
pub const FORMAT_B8G8R8A8_UNORM: i32 = 44;

/// Colour space of every swapchain: sRGB, non-linear.
pub const COLOR_SPACE_SRGB_NONLINEAR: i32 = 0;

/// Image usage flag: destination of a transfer.
pub const IMAGE_USAGE_TRANSFER_DST: u32 = 0x2;

/// Image usage flag: colour attachment.
pub const IMAGE_USAGE_COLOR_ATTACHMENT: u32 = 0x10;

/// What a swapchain's images are used for: they are blitted into and drawn
/// onto.
pub const SWAPCHAIN_IMAGE_USAGE: u32 = 0x12;

/// Sharing mode: one queue family at a time.
pub const SHARING_MODE_EXCLUSIVE: i32 = 0;

/// Surface transform flag: none.
pub const SURFACE_TRANSFORM_IDENTITY: u32 = 0x1;

/// Composite alpha flag: the alpha channel is ignored.
pub const COMPOSITE_ALPHA_OPAQUE: u32 = 0x1;

/// Present mode: first in, first out, paced by the display.
pub const PRESENT_MODE_FIFO: i32 = 2;

/// The timeout that never runs out.
pub const NO_TIMEOUT: u64 = 0xFFFF_FFFF_FFFF_FFFF;

/// The handle that names no object.
pub const NULL_HANDLE: u64 = 0;

/// How a swapchain is created.
#[derive(Clone, Copy, Debug, PartialEq, Eq, Structural)]
pub struct SwapchainCreateInfo {
    pub surface: u64,
    pub min_image_count: u32,
    pub image_format: i32,
    pub image_color_space: i32,
    pub image_extent: Extent2D,
    pub image_array_layers: u32,
    pub image_usage: u32,
    pub image_sharing_mode: i32,
    pub pre_transform: u32,
    pub composite_alpha: u32,
    pub present_mode: i32,
    pub clipped: bool,
    pub old_swapchain: u64,
}

/// A request for the next presentable image.
#[derive(Clone, Copy, Debug, PartialEq, Eq, Structural)]
pub struct AcquireInfo {
    pub swapchain: u64,
    pub timeout: u64,
    pub semaphore: u64,
    pub fence: u64,
}

/// A request to present one image of one swapchain.
#[derive(Clone, Copy, Debug, PartialEq, Eq, Structural)]
pub struct PresentInfo {
    pub queue: u64,
    pub swapchain: u64,
    pub wait_semaphore: u64,
    pub image_index: u32,
}

/// Why a swapchain could not be put together.
#[derive(Clone, Copy, Debug, PartialEq, Eq, Structural)]
pub enum SwapchainError {
    /// There is not exactly one view for each image.
    ViewCountMismatch,
}

/// A swapchain with its images, one view over each, and the extent and
/// format it was made with. The images belong to the presentation engine;
/// the swapchain and the views are the engine's to destroy.
pub struct Swapchain {
    swapchain: u64,
    images: Vec<u64>,
    views: Vec<u64>,
    extent: Extent2D,
    format: i32,
}

/// What a swapchain holds.
pub ghost struct SwapchainView {
    pub swapchain: u64,
    pub images: Seq<u64>,
    pub views: Seq<u64>,
    pub extent: Extent2D,
    pub format: i32,
}

impl View for Swapchain {
    type V = SwapchainView;

    closed spec fn view(&self) -> SwapchainView {
        SwapchainView {
            swapchain: self.swapchain,
            images: self.images@,
            views: self.views@,
            extent: self.extent,
            format: self.format,
        }
    }
}

/// The calls that destroy `views`, in their order.
pub open spec fn view_ops(views: Seq<u64>) -> Seq<DeviceOp> {
    Seq::new(views.len(), |i: int| DeviceOp::DestroyImageView { view: views[i] })
}

/// The calls that destroy a swapchain and then each of its views, first to
/// last.
pub open spec fn swapchain_ops(swapchain: SwapchainView) -> Seq<DeviceOp> {
    seq![DeviceOp::DestroySwapchain { swapchain: swapchain.swapchain }] + view_ops(
        swapchain.views,
    )
}

/// The native handle of a swapchain that may be absent.
pub open spec fn handle_or_null(old_swapchain: Option<&Swapchain>) -> u64 {
    match old_swapchain {
        Some(old) => old@.swapchain,
        None => NULL_HANDLE,
    }
}

/// How the swapchain on `surface` is created, when the window asks for
/// `extent` and the swapchain `old_swapchain` is replaced.
pub open spec fn create_info_of(
    caps: SurfaceCapabilities,
    surface: u64,
    present_mode: i32,
    extent: Extent2D,
    old_swapchain: u64,
) -> SwapchainCreateInfo {
    SwapchainCreateInfo {
        surface,
        min_image_count: caps.min_image_count,
        image_format: FORMAT_B8G8R8A8_UNORM,
        image_color_space: COLOR_SPACE_SRGB_NONLINEAR,
        image_extent: swapchain_extent(caps, extent.width, extent.height),
        image_array_layers: 1,
        image_usage: SWAPCHAIN_IMAGE_USAGE,
        image_sharing_mode: SHARING_MODE_EXCLUSIVE,
        pre_transform: SURFACE_TRANSFORM_IDENTITY,
        composite_alpha: COMPOSITE_ALPHA_OPAQUE,
        present_mode,
        clipped: true,
        old_swapchain,
    }
}

/// A swapchain is created with the extent and the format that it then
/// holds: what is recorded for its images fits the images.
pub proof fn lemma_created_as_held(
    caps: SurfaceCapabilities,
    surface: u64,
    present_mode: i32,
    extent: Extent2D,
    old_swapchain: u64,
    held: SwapchainView,
)
    requires
        held.extent == swapchain_extent(caps, extent.width, extent.height),
        held.format == FORMAT_B8G8R8A8_UNORM,
    ensures
        create_info_of(caps, surface, present_mode, extent, old_swapchain).image_extent
            == held.extent,
        create_info_of(caps, surface, present_mode, extent, old_swapchain).image_format
            == held.format,
{
}

impl Swapchain {
    /// Whether there is one view for each image.
    #[verifier::type_invariant]
    closed spec fn one_view_per_image(&self) -> bool {
        self.images@.len() == self.views@.len()
    }

    /// How the swapchain on `surface` is created: as many images as the
    /// surface needs at least, in the fixed format and colour space, used as
    /// transfer destination and colour attachment. Their extent is the one
    /// that the surface dictates, or else `extent` brought into the
    /// surface's range: the extent that the swapchain then holds. A
    /// swapchain that is replaced is named, so that its images can be taken
    /// over.
    pub fn create_info(
        caps: &SurfaceCapabilities,
        surface: u64,
        present_mode: i32,
        extent: Extent2D,
        old_swapchain: Option<&Swapchain>,
    ) -> (info: SwapchainCreateInfo)
        ensures
            info == create_info_of(
                *caps,
                surface,
                present_mode,
                extent,
                handle_or_null(old_swapchain),
            ),
    {
        let mut info = SwapchainCreateInfo {
            surface,
            min_image_count: caps.min_image_count,
            image_format: FORMAT_B8G8R8A8_UNORM,
            image_color_space: COLOR_SPACE_SRGB_NONLINEAR,
            image_extent: find_swapchain_extent(*caps, extent.width, extent.height),
            image_array_layers: 1,
            image_usage: SWAPCHAIN_IMAGE_USAGE,
            image_sharing_mode: SHARING_MODE_EXCLUSIVE,
            pre_transform: SURFACE_TRANSFORM_IDENTITY,
            composite_alpha: COMPOSITE_ALPHA_OPAQUE,
            present_mode,
            clipped: true,
            old_swapchain: NULL_HANDLE,
        };
        if let Some(old) = old_swapchain {
            info.old_swapchain = old.swapchain;
        }
        info
    }

    /// How the view over the swapchain image `image` is created: a
    /// two-dimensional colour view of the whole image, in the swapchain's
    /// format.
    pub fn view_info(image: u64) -> (info: ImageViewCreateInfo)
        ensures
            info == (ImageViewCreateInfo {
                image,
                view_type: IMAGE_VIEW_TYPE_2D,
                format: FORMAT_B8G8R8A8_UNORM,
                subresource_range: whole_image(ImageAspect::Color),
            }),
    {
        ImageViewCreateInfo {
            image,
            view_type: IMAGE_VIEW_TYPE_2D,
            format: FORMAT_B8G8R8A8_UNORM,
            subresource_range: image_subresource_range(ImageAspect::Color),
        }
    }

    /// Puts a swapchain together from what was created: the native
    /// swapchain, its images, and the views made over them, one each and in
    /// the same order. Its extent is the one that the surface dictates, or
    /// else the desired one brought into the surface's range.
    pub fn new(
        swapchain: u64,
        images: Vec<u64>,
        views: Vec<u64>,
        caps: SurfaceCapabilities,
        extent: Extent2D,
    ) -> (made: Result<Swapchain, SwapchainError>)
        ensures
            images@.len() != views@.len() ==> made == Err::<Swapchain, SwapchainError>(
                SwapchainError::ViewCountMismatch,
            ),
            images@.len() == views@.len() ==> made.is_ok() && made.unwrap()@ == (SwapchainView {
                swapchain,
                images: images@,
                views: views@,
                extent: swapchain_extent(caps, extent.width, extent.height),
                format: FORMAT_B8G8R8A8_UNORM,
            }),
    {
        if images.len() != views.len() {
            return Err(SwapchainError::ViewCountMismatch);
        }
        let extent = find_swapchain_extent(caps, extent.width, extent.height);
        Ok(Swapchain { swapchain, images, views, extent, format: FORMAT_B8G8R8A8_UNORM })
    }

    /// The native swapchain.
    pub fn swapchain(&self) -> (swapchain: u64)
        ensures
            swapchain == self@.swapchain,
    {
        self.swapchain
    }

    /// The extent of the images.
    pub fn extent(&self) -> (extent: Extent2D)
        ensures
            extent == self@.extent,
    {
        self.extent
    }

    /// The format of the images, by its number.
    pub fn format(&self) -> (format: i32)
        ensures
            format == self@.format,
    {
        self.format
    }

    /// Number of images, which is the number of views.
    pub fn image_count(&self) -> (count: usize)
        ensures
            count == self@.images.len(),
            count == self@.views.len(),
    {
        proof {
            use_type_invariant(self);
        }
        self.images.len()
    }

    /// The calls that destroy the swapchain and then each view, first to
    /// last. The images are not touched: they are not the engine's.
    pub fn destroy(&self) -> (ops: Vec<DeviceOp>)
        ensures
            ops@ == swapchain_ops(self@),
    {
        let mut ops: Vec<DeviceOp> = Vec::new();
        ops.push(DeviceOp::DestroySwapchain { swapchain: self.swapchain });
        let mut i: usize = 0;
        while i < self.views.len()
            invariant
                i <= self.views.len(),
                ops@.len() == i + 1,
                ops@[0] == (DeviceOp::DestroySwapchain { swapchain: self.swapchain }),
                forall|k: int|
                    0 <= k < i ==> ops@[k + 1] == (DeviceOp::DestroyImageView {
                        view: self.views@[k],
                    }),
            decreases self.views.len() - i,
        {
            ops.push(DeviceOp::DestroyImageView { view: self.views[i] });
            i += 1;
        }
        assert(ops@ =~= swapchain_ops(self@));
        ops
    }

    /// The request for the next presentable image. It never times out and
    /// signals `semaphore`, and no fence, when the image can be written.
    pub fn acquire_next_image(&self, semaphore: u64) -> (request: AcquireInfo)
        ensures
            request == (AcquireInfo {
                swapchain: self@.swapchain,
                timeout: NO_TIMEOUT,
                semaphore,
                fence: NULL_HANDLE,
            }),
    {
        AcquireInfo {
            swapchain: self.swapchain,
            timeout: NO_TIMEOUT,
            semaphore,
            fence: NULL_HANDLE,
        }
    }

    /// The image with the index `index`.
    pub fn get_image(&self, index: u32) -> (image: u64)
        requires
            index < self@.images.len(),
        ensures
            image == self@.images[index as int],
    {
        self.images[index as usize]
    }

    /// The image with the index `index`, if the swapchain has that many.
    pub fn image_at(&self, index: u32) -> (image: Option<u64>)
        ensures
            image == if index < self@.images.len() {
                Some(self@.images[index as int])
            } else {
                None
            },
    {
        if (index as usize) < self.images.len() {
            Some(self.images[index as usize])
        } else {
            None
        }
    }

    /// Whether `image` is one of the swapchain's images.
    pub fn contains_image(&self, image: u64) -> (found: bool)
        ensures
            found == self@.images.contains(image),
    {
        let mut i: usize = 0;
        while i < self.images.len()
            invariant
                i <= self.images.len(),
                forall|k: int| 0 <= k < i ==> self.images@[k] != image,
            decreases self.images.len() - i,
        {
            if self.images[i] == image {
                return true;
            }
            i += 1;
        }
        false
    }

    /// The request that presents the image `image_index` on
    /// `graphics_queue` once `wait_semaphore` is signaled.
    pub fn present(&self, graphics_queue: u64, wait_semaphore: u64, image_index: u32) -> (request:
        PresentInfo)
        ensures
            request == (PresentInfo {
                queue: graphics_queue,
                swapchain: self@.swapchain,
                wait_semaphore,
                image_index,
            }),
    {
        PresentInfo {
            queue: graphics_queue,
            swapchain: self.swapchain,
            wait_semaphore,
            image_index,
        }
    }
}

} // verus!
