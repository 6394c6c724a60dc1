//! Image layouts and the barrier that moves an image from one to the next.
//!
//! An image's layout is not stored with the image. The caller threads it
//! through the commands it records, and every barrier names the layout the
//! image is in and the one it goes to.

use vstd::prelude::*;

verus! {

/// The memory-access layouts that the engine moves images through.
#[derive(Clone, Copy, Debug, PartialEq, Eq, Structural)]
pub enum ImageLayout {
    Undefined,
    General,
    ColorAttachmentOptimal,
    TransferSrcOptimal,
    TransferDstOptimal,
    PresentSrc,
    DepthAttachmentOptimal,
}

/// Which aspect of an image a barrier or a view covers.
#[derive(Clone, Copy, Debug, PartialEq, Eq, Structural)]
pub enum ImageAspect {
    Color,
    Depth,
}

/// Pipeline stage mask: every command.
pub const STAGE_ALL_COMMANDS: u64 = 0x0001_0000;

/// Pipeline stage mask: every graphics stage.
pub const STAGE_ALL_GRAPHICS: u64 = 0x0000_8000;

/// Pipeline stage mask: the stage that writes colour attachments.
pub const STAGE_COLOR_ATTACHMENT_OUTPUT: u64 = 0x0000_0400;

/// Access mask: any read.
pub const ACCESS_MEMORY_READ: u64 = 0x0000_8000;

/// Access mask: any write.
pub const ACCESS_MEMORY_WRITE: u64 = 0x0001_0000;

/// Access mask: any read or write.
pub const ACCESS_MEMORY_READ_WRITE: u64 = 0x0001_8000;

/// "All mip levels from the base level on."
pub const REMAINING_MIP_LEVELS: u32 = 0xFFFF_FFFF;

/// "All array layers from the base layer on."
pub const REMAINING_ARRAY_LAYERS: u32 = 0xFFFF_FFFF;

/// The part of an image that a barrier or a view covers.
#[derive(Clone, Copy, Debug, PartialEq, Eq, Structural)]
pub struct ImageSubresourceRange {
    pub aspect: ImageAspect,
    pub base_mip_level: u32,
    pub level_count: u32,
    pub base_array_layer: u32,
    pub layer_count: u32,
}

/// A layout transition of one image, with the stages and accesses it orders.
#[derive(Clone, Copy, Debug, PartialEq, Eq, Structural)]
pub struct ImageMemoryBarrier {
    pub image: u64,
    pub old_layout: ImageLayout,
    pub new_layout: ImageLayout,
    pub src_stage_mask: u64,
    pub src_access_mask: u64,
    pub dst_stage_mask: u64,
    pub dst_access_mask: u64,
    pub subresource_range: ImageSubresourceRange,
}

impl ImageLayout {
    /// The number the graphics API knows the layout by.
    pub open spec fn raw_spec(self) -> i32 {
        match self {
            ImageLayout::Undefined => 0,
            ImageLayout::General => 1,
            ImageLayout::ColorAttachmentOptimal => 2,
            ImageLayout::TransferSrcOptimal => 6,
            ImageLayout::TransferDstOptimal => 7,
            ImageLayout::PresentSrc => 1_000_001_002,
            ImageLayout::DepthAttachmentOptimal => 1_000_241_000,
        }
    }

    /// The number the graphics API knows the layout by.
    pub fn raw(self) -> (r: i32)
        ensures
            r == self.raw_spec(),
    {
        match self {
            ImageLayout::Undefined => 0,
            ImageLayout::General => 1,
            ImageLayout::ColorAttachmentOptimal => 2,
            ImageLayout::TransferSrcOptimal => 6,
            ImageLayout::TransferDstOptimal => 7,
            ImageLayout::PresentSrc => 1_000_001_002,
            ImageLayout::DepthAttachmentOptimal => 1_000_241_000,
        }
    }
}

impl ImageAspect {
    /// The aspect's bit in the graphics API's aspect mask.
    pub open spec fn raw_spec(self) -> u32 {
        match self {
            ImageAspect::Color => 1,
            ImageAspect::Depth => 2,
        }
    }

    /// The aspect's bit in the graphics API's aspect mask.
    pub fn raw(self) -> (r: u32)
        ensures
            r == self.raw_spec(),
    {
        match self {
            ImageAspect::Color => 1,
            ImageAspect::Depth => 2,
        }
    }
}

/// The aspect that a transition into `new_layout` covers: depth for the depth
/// attachment layout, colour for every other.
pub open spec fn aspect_of(new_layout: ImageLayout) -> ImageAspect {
    if new_layout == ImageLayout::DepthAttachmentOptimal {
        ImageAspect::Depth
    } else {
        ImageAspect::Color
    }
}

/// The whole of an image under one aspect: every mip level, every layer.
pub open spec fn whole_image(aspect: ImageAspect) -> ImageSubresourceRange {
    ImageSubresourceRange {
        aspect,
        base_mip_level: 0,
        level_count: REMAINING_MIP_LEVELS,
        base_array_layer: 0,
        layer_count: REMAINING_ARRAY_LAYERS,
    }
}

/// The barrier that takes `image` from `old_layout` to `new_layout`. It
/// covers the whole image and orders every earlier write of any command
/// before every later read or write of any command.
pub open spec fn transition_barrier(
    image: u64,
    old_layout: ImageLayout,
    new_layout: ImageLayout,
) -> ImageMemoryBarrier {
    ImageMemoryBarrier {
        image,
        old_layout,
        new_layout,
        src_stage_mask: STAGE_ALL_COMMANDS,
        src_access_mask: ACCESS_MEMORY_WRITE,
        dst_stage_mask: STAGE_ALL_COMMANDS,
        dst_access_mask: ACCESS_MEMORY_READ_WRITE,
        subresource_range: whole_image(aspect_of(new_layout)),
    }
}

/// The aspect that a transition into `new_layout` covers.
pub fn transition_aspect(new_layout: ImageLayout) -> (aspect: ImageAspect)
    ensures
        aspect == aspect_of(new_layout),
{
    match new_layout {
        ImageLayout::DepthAttachmentOptimal => ImageAspect::Depth,
        _ => ImageAspect::Color,
    }
}

} // verus!
