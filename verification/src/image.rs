//! An image with its view, as the engine holds it.

use vstd::prelude::*;
use crate::commands::CommandBuffer;
use crate::deletion_queue::DeletionQueue;
use crate::deletion_queue::DestroyAction;
use crate::extent::Extent2D;
use crate::layout::ImageAspect;
use crate::layout::ImageLayout;
use crate::layout::ImageSubresourceRange;
use crate::transitionable::Transitionable;
use crate::util::image_view_create_info;
use crate::util::ImageViewCreateInfo;
use crate::util::IMAGE_VIEW_TYPE_2D;

verus! {

/// A native image and the view over it, with the size and format they were
/// made with. Nothing of it changes after creation. The image's layout is
/// not part of it: whoever records commands keeps track of that.
#[derive(Clone, Copy, Debug, PartialEq, Eq)]
pub struct Image {
    image: u64,
    view: u64,
    extent: Extent2D,
    format: i32,
}

impl Image {
    /// The native image.
    pub closed spec fn image_spec(&self) -> u64 {
        self.image
    }

    /// The view over the image.
    pub closed spec fn view_spec(&self) -> u64 {
        self.view
    }

    /// The image's size.
    pub closed spec fn extent_spec(&self) -> Extent2D {
        self.extent
    }

    /// The pixel format, by its number.
    pub closed spec fn format_spec(&self) -> i32 {
        self.format
    }

    /// How the view over `image` is created: a two-dimensional colour view
    /// of its first mip level and layer, in `format`.
    pub fn view_info(format: i32, image: u64) -> (info: ImageViewCreateInfo)
        ensures
            info == (ImageViewCreateInfo {
                image,
                view_type: IMAGE_VIEW_TYPE_2D,
                format,
                subresource_range: ImageSubresourceRange {
                    aspect: ImageAspect::Color,
                    base_mip_level: 0,
                    level_count: 1,
                    base_array_layer: 0,
                    layer_count: 1,
                },
            }),
    {
        image_view_create_info(format, image, ImageAspect::Color)
    }

    /// Takes ownership of a freshly created image: `image`, bound to the
    /// memory `allocation`, and the `view` made over it. One action is
    /// registered, which frees the three together.
    pub fn new(
        deletion_queue: &mut DeletionQueue,
        image: u64,
        view: u64,
        allocation: u64,
        extent: Extent2D,
        format: i32,
    ) -> (owned: Image)
        ensures
            owned.image_spec() == image,
            owned.view_spec() == view,
            owned.extent_spec() == extent,
            owned.format_spec() == format,
            final(deletion_queue)@ == old(deletion_queue)@.push(
                DestroyAction::FreeImage { view, image, allocation },
            ),
    {
        deletion_queue.push(DestroyAction::FreeImage { view, image, allocation });
        Image { image, view, extent, format }
    }

    /// Wraps an image that somebody else owns, a swapchain's for one, with a
    /// `view` made for it. One action is registered, which frees the view and
    /// nothing else: the image stays its owner's to destroy.
    pub fn from_handle(
        deletion_queue: &mut DeletionQueue,
        image: u64,
        view: u64,
        format: i32,
        extent: Extent2D,
    ) -> (wrapped: Image)
        ensures
            wrapped.image_spec() == image,
            wrapped.view_spec() == view,
            wrapped.extent_spec() == extent,
            wrapped.format_spec() == format,
            final(deletion_queue)@ == old(deletion_queue)@.push(DestroyAction::FreeView { view }),
    {
        deletion_queue.push(DestroyAction::FreeView { view });
        Image { image, view, extent, format }
    }

    /// The view over the image.
    pub fn view(&self) -> (view: u64)
        ensures
            view == self.view_spec(),
    {
        self.view
    }

    /// The pixel format, by its number.
    pub fn format(&self) -> (format: i32)
        ensures
            format == self.format_spec(),
    {
        self.format
    }

    /// The image's size.
    pub fn extent(&self) -> (extent: Extent2D)
        ensures
            extent == self.extent_spec(),
    {
        self.extent
    }

    /// The native image.
    pub fn image(&self) -> (image: u64)
        ensures
            image == self.image_spec(),
    {
        self.image
    }
}

impl Transitionable for Image {
    open spec fn target(&self) -> u64 {
        self.image_spec()
    }

    fn transition(
        &self,
        cmd_buf: &mut CommandBuffer,
        current_layout: ImageLayout,
        new_layout: ImageLayout,
    ) {
        self.image.transition(cmd_buf, current_layout, new_layout);
    }
}

} // verus!
