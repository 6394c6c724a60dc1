use ash::vk;
use ash::vk::Handle;
use zenith::descriptors::DESCRIPTOR_TYPE_STORAGE_IMAGE;
use zenith::descriptors::SHADER_STAGE_COMPUTE;
use zenith::framedata::COMMAND_POOL_CREATE_RESET_COMMAND_BUFFER;
use zenith::framedata::FENCE_CREATE_SIGNALED;
use zenith::layout::ImageAspect;
use zenith::layout::ImageLayout;
use zenith::layout::ACCESS_MEMORY_READ;
use zenith::layout::ACCESS_MEMORY_READ_WRITE;
use zenith::layout::ACCESS_MEMORY_WRITE;
use zenith::layout::REMAINING_ARRAY_LAYERS;
use zenith::layout::REMAINING_MIP_LEVELS;
use zenith::layout::STAGE_ALL_COMMANDS;
use zenith::layout::STAGE_ALL_GRAPHICS;
use zenith::layout::STAGE_COLOR_ATTACHMENT_OUTPUT;
use zenith::setup::DRAW_IMAGE_USAGE;
use zenith::setup::FORMAT_R16G16B16A16_SFLOAT;
use zenith::setup::PUSH_CONSTANTS_SIZE;
use zenith::swapchain::COLOR_SPACE_SRGB_NONLINEAR;
use zenith::swapchain::COMPOSITE_ALPHA_OPAQUE;
use zenith::swapchain::FORMAT_B8G8R8A8_UNORM;
use zenith::swapchain::IMAGE_USAGE_COLOR_ATTACHMENT;
use zenith::swapchain::IMAGE_USAGE_TRANSFER_DST;
use zenith::swapchain::NO_TIMEOUT;
use zenith::swapchain::NULL_HANDLE;
use zenith::swapchain::PRESENT_MODE_FIFO;
use zenith::swapchain::SHARING_MODE_EXCLUSIVE;
use zenith::swapchain::SURFACE_TRANSFORM_IDENTITY;
use zenith::swapchain::SWAPCHAIN_IMAGE_USAGE;
use zenith::util::IMAGE_TYPE_2D;
use zenith::util::IMAGE_VIEW_TYPE_2D;
use zenith::util::SAMPLE_COUNT_1;

#[test]
fn layouts_have_the_numbers_of_the_graphics_api() {
    assert_eq!(ImageLayout::Undefined.raw(), vk::ImageLayout::UNDEFINED.as_raw());
    assert_eq!(ImageLayout::General.raw(), vk::ImageLayout::GENERAL.as_raw());
    assert_eq!(
        ImageLayout::ColorAttachmentOptimal.raw(),
        vk::ImageLayout::COLOR_ATTACHMENT_OPTIMAL.as_raw()
    );
    assert_eq!(
        ImageLayout::TransferSrcOptimal.raw(),
        vk::ImageLayout::TRANSFER_SRC_OPTIMAL.as_raw()
    );
    assert_eq!(
        ImageLayout::TransferDstOptimal.raw(),
        vk::ImageLayout::TRANSFER_DST_OPTIMAL.as_raw()
    );
    assert_eq!(ImageLayout::PresentSrc.raw(), vk::ImageLayout::PRESENT_SRC_KHR.as_raw());
    assert_eq!(
        ImageLayout::DepthAttachmentOptimal.raw(),
        vk::ImageLayout::DEPTH_ATTACHMENT_OPTIMAL.as_raw()
    );
}

#[test]
fn layout_numbers_are_exact() {
    assert_eq!(ImageLayout::Undefined.raw(), 0);
    assert_eq!(ImageLayout::General.raw(), 1);
    assert_eq!(ImageLayout::ColorAttachmentOptimal.raw(), 2);
    assert_eq!(ImageLayout::TransferSrcOptimal.raw(), 6);
    assert_eq!(ImageLayout::TransferDstOptimal.raw(), 7);
    assert_eq!(ImageLayout::PresentSrc.raw(), 1_000_001_002);
    assert_eq!(ImageLayout::DepthAttachmentOptimal.raw(), 1_000_241_000);
}

#[test]
fn aspects_have_the_bits_of_the_graphics_api() {
    assert_eq!(ImageAspect::Color.raw(), vk::ImageAspectFlags::COLOR.as_raw());
    assert_eq!(ImageAspect::Depth.raw(), vk::ImageAspectFlags::DEPTH.as_raw());
    assert_eq!(ImageAspect::Color.raw(), 1);
    assert_eq!(ImageAspect::Depth.raw(), 2);
}

#[test]
fn stage_and_access_masks_are_those_of_the_graphics_api() {
    assert_eq!(STAGE_ALL_COMMANDS, vk::PipelineStageFlags2::ALL_COMMANDS.as_raw());
    assert_eq!(STAGE_ALL_GRAPHICS, vk::PipelineStageFlags2::ALL_GRAPHICS.as_raw());
    assert_eq!(
        STAGE_COLOR_ATTACHMENT_OUTPUT,
        vk::PipelineStageFlags2::COLOR_ATTACHMENT_OUTPUT.as_raw()
    );
    assert_eq!(ACCESS_MEMORY_READ, vk::AccessFlags2::MEMORY_READ.as_raw());
    assert_eq!(ACCESS_MEMORY_WRITE, vk::AccessFlags2::MEMORY_WRITE.as_raw());
    assert_eq!(
        ACCESS_MEMORY_READ_WRITE,
        (vk::AccessFlags2::MEMORY_WRITE | vk::AccessFlags2::MEMORY_READ).as_raw()
    );
    assert_eq!(ACCESS_MEMORY_READ_WRITE, ACCESS_MEMORY_READ | ACCESS_MEMORY_WRITE);
}

#[test]
fn whole_image_markers_are_those_of_the_graphics_api() {
    assert_eq!(REMAINING_MIP_LEVELS, vk::REMAINING_MIP_LEVELS);
    assert_eq!(REMAINING_ARRAY_LAYERS, vk::REMAINING_ARRAY_LAYERS);
}

#[test]
fn creation_flags_are_those_of_the_graphics_api() {
    assert_eq!(FENCE_CREATE_SIGNALED, vk::FenceCreateFlags::SIGNALED.as_raw());
    assert_eq!(
        COMMAND_POOL_CREATE_RESET_COMMAND_BUFFER,
        vk::CommandPoolCreateFlags::RESET_COMMAND_BUFFER.as_raw()
    );
    assert_eq!(IMAGE_TYPE_2D, vk::ImageType::TYPE_2D.as_raw());
    assert_eq!(IMAGE_VIEW_TYPE_2D, vk::ImageViewType::TYPE_2D.as_raw());
    assert_eq!(SAMPLE_COUNT_1, vk::SampleCountFlags::TYPE_1.as_raw());
    assert_eq!(DESCRIPTOR_TYPE_STORAGE_IMAGE, vk::DescriptorType::STORAGE_IMAGE.as_raw());
    assert_eq!(SHADER_STAGE_COMPUTE, vk::ShaderStageFlags::COMPUTE.as_raw());
}

#[test]
fn swapchain_constants_are_those_of_the_graphics_api() {
    assert_eq!(FORMAT_B8G8R8A8_UNORM, vk::Format::B8G8R8A8_UNORM.as_raw());
    assert_eq!(COLOR_SPACE_SRGB_NONLINEAR, vk::ColorSpaceKHR::SRGB_NONLINEAR.as_raw());
    assert_eq!(IMAGE_USAGE_TRANSFER_DST, vk::ImageUsageFlags::TRANSFER_DST.as_raw());
    assert_eq!(IMAGE_USAGE_COLOR_ATTACHMENT, vk::ImageUsageFlags::COLOR_ATTACHMENT.as_raw());
    assert_eq!(
        SWAPCHAIN_IMAGE_USAGE,
        (vk::ImageUsageFlags::COLOR_ATTACHMENT | vk::ImageUsageFlags::TRANSFER_DST).as_raw()
    );
    assert_eq!(SHARING_MODE_EXCLUSIVE, vk::SharingMode::EXCLUSIVE.as_raw());
    assert_eq!(SURFACE_TRANSFORM_IDENTITY, vk::SurfaceTransformFlagsKHR::IDENTITY.as_raw());
    assert_eq!(COMPOSITE_ALPHA_OPAQUE, vk::CompositeAlphaFlagsKHR::OPAQUE.as_raw());
    assert_eq!(PRESENT_MODE_FIFO, vk::PresentModeKHR::FIFO.as_raw());
    assert_eq!(NO_TIMEOUT, u64::MAX);
    assert_eq!(NULL_HANDLE, vk::Fence::null().as_raw());
    assert_eq!(NULL_HANDLE, vk::SwapchainKHR::null().as_raw());
}

#[test]
fn render_target_constants_are_those_of_the_graphics_api() {
    assert_eq!(FORMAT_R16G16B16A16_SFLOAT, vk::Format::R16G16B16A16_SFLOAT.as_raw());
    assert_eq!(
        DRAW_IMAGE_USAGE,
        (vk::ImageUsageFlags::TRANSFER_SRC
            | vk::ImageUsageFlags::TRANSFER_DST
            | vk::ImageUsageFlags::STORAGE
            | vk::ImageUsageFlags::COLOR_ATTACHMENT)
            .as_raw()
    );
    assert_eq!(PUSH_CONSTANTS_SIZE, 64);
}
