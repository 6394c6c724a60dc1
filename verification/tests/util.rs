use ash::vk;
use zenith::commands::AttachmentLoadOp;
use zenith::commands::AttachmentStoreOp;
use zenith::commands::Command;
use zenith::commands::CommandBuffer;
use zenith::commands::Filter;
use zenith::commands::ImageBlit;
use zenith::commands::RenderingAttachmentInfo;
use zenith::deletion_queue::DeletionQueue;
use zenith::extent::Extent2D;
use zenith::image::Image;
use zenith::layout::ImageAspect;
use zenith::layout::ImageLayout;
use zenith::layout::ImageSubresourceRange;
use zenith::util::command_buffer_submit_info;
use zenith::util::copy_image_to_image;
use zenith::util::create_device;
use zenith::util::image_create_info;
use zenith::util::image_subresource_range;
use zenith::util::image_view_create_info;
use zenith::util::load_shader_module;
use zenith::util::pick_physical_device;
use zenith::util::rendering_attachment_info;
use zenith::util::rendering_info;
use zenith::util::score;
use zenith::util::select_queue_family;
use zenith::util::semaphore_submit_info;
use zenith::util::submit_info;
use zenith::util::CommandBufferSubmitInfo;
use zenith::util::DeviceCreateInfo;
use zenith::util::Extent3D;
use zenith::util::ImageCreateInfo;
use zenith::util::ImageViewCreateInfo;
use zenith::util::InitError;
use zenith::util::PhysicalDeviceType;
use zenith::util::SemaphoreSubmitInfo;
use zenith::util::ShaderError;
use zenith::util::SPIRV_MAGIC_NUMBER;

fn image(handle: u64, view: u64) -> Image {
    let mut queue = DeletionQueue::new();
    Image::from_handle(&mut queue, handle, view, 44, Extent2D { width: 8, height: 8 })
}

#[test]
fn attachment_without_clear_value_loads() {
    assert_eq!(
        rendering_attachment_info(&image(1, 2), None, ImageLayout::ColorAttachmentOptimal),
        RenderingAttachmentInfo {
            image_view: 2,
            image_layout: ImageLayout::ColorAttachmentOptimal,
            load_op: AttachmentLoadOp::Load,
            store_op: AttachmentStoreOp::Store,
            clear_value: None,
        }
    );
}

#[test]
fn attachment_with_clear_value_clears() {
    let clear = [1.0f32.to_bits(), 0, 0, 1.0f32.to_bits()];
    assert_eq!(
        rendering_attachment_info(&image(1, 2), Some(clear), ImageLayout::General),
        RenderingAttachmentInfo {
            image_view: 2,
            image_layout: ImageLayout::General,
            load_op: AttachmentLoadOp::Clear,
            store_op: AttachmentStoreOp::Store,
            clear_value: Some(clear),
        }
    );
}

#[test]
fn rendering_info_has_one_layer() {
    let color = rendering_attachment_info(&image(1, 2), None, ImageLayout::ColorAttachmentOptimal);
    let depth = rendering_attachment_info(&image(3, 4), None, ImageLayout::DepthAttachmentOptimal);
    let extent = Extent2D { width: 640, height: 480 };
    let info = rendering_info(extent, vec![color], Some(depth));
    assert_eq!(info.render_area, extent);
    assert_eq!(info.layer_count, 1);
    assert_eq!(info.color_attachments, vec![color]);
    assert_eq!(info.depth_attachment, Some(depth));
    let bare = rendering_info(extent, Vec::new(), None);
    assert_eq!(bare.color_attachments, Vec::new());
    assert_eq!(bare.depth_attachment, None);
}

#[test]
fn copy_is_a_linear_blit_between_the_transfer_layouts() {
    let mut cmd_buf = CommandBuffer::new(7);
    let src_size = Extent2D { width: 1920, height: 1080 };
    let dst_size = Extent2D { width: 1700, height: 900 };
    copy_image_to_image(&mut cmd_buf, &image(1, 2), &image(3, 4), src_size, dst_size);
    assert_eq!(
        cmd_buf.finish(),
        vec![Command::BlitImage {
            blit: ImageBlit {
                src_image: 1,
                src_image_layout: ImageLayout::TransferSrcOptimal,
                src_size,
                dst_image: 3,
                dst_image_layout: ImageLayout::TransferDstOptimal,
                dst_size,
                layer_count: 1,
                filter: Filter::Linear,
            },
        }]
    );
}

#[test]
fn images_are_flat_with_one_level_layer_and_sample() {
    assert_eq!(
        image_create_info(97, 0x1B, Extent2D { width: 1700, height: 900 }),
        ImageCreateInfo {
            image_type: 1,
            format: 97,
            extent: Extent3D { width: 1700, height: 900, depth: 1 },
            mip_levels: 1,
            array_layers: 1,
            samples: 1,
            usage: 0x1B,
        }
    );
}

#[test]
fn views_cover_the_first_level_and_layer() {
    assert_eq!(
        image_view_create_info(97, 5, ImageAspect::Color),
        ImageViewCreateInfo {
            image: 5,
            view_type: 1,
            format: 97,
            subresource_range: ImageSubresourceRange {
                aspect: ImageAspect::Color,
                base_mip_level: 0,
                level_count: 1,
                base_array_layer: 0,
                layer_count: 1,
            },
        }
    );
    assert_eq!(
        image_view_create_info(126, 6, ImageAspect::Depth).subresource_range.aspect,
        ImageAspect::Depth
    );
}

#[test]
fn semaphores_are_submitted_with_the_value_one() {
    assert_eq!(
        semaphore_submit_info(0x400, 9),
        SemaphoreSubmitInfo { semaphore: 9, value: 1, stage_mask: 0x400 }
    );
}

#[test]
fn command_buffer_is_submitted_by_its_handle() {
    assert_eq!(command_buffer_submit_info(12), CommandBufferSubmitInfo { command_buffer: 12 });
}

#[test]
fn submit_info_keeps_waits_and_signals_apart() {
    let wait = semaphore_submit_info(0x400, 1);
    let signal = semaphore_submit_info(0x8000, 2);
    let info = submit_info(vec![command_buffer_submit_info(3)], vec![signal], vec![wait]);
    assert_eq!(info.wait_semaphore_infos, vec![wait]);
    assert_eq!(info.signal_semaphore_infos, vec![signal]);
    assert_eq!(info.command_buffer_infos, vec![CommandBufferSubmitInfo { command_buffer: 3 }]);
}

#[test]
fn subresource_range_is_the_whole_image() {
    assert_eq!(
        image_subresource_range(ImageAspect::Depth),
        ImageSubresourceRange {
            aspect: ImageAspect::Depth,
            base_mip_level: 0,
            level_count: u32::MAX,
            base_array_layer: 0,
            layer_count: u32::MAX,
        }
    );
}

#[test]
fn device_types_are_scored() {
    assert_eq!(score(PhysicalDeviceType::DiscreteGpu), 100);
    assert_eq!(score(PhysicalDeviceType::IntegratedGpu), 75);
    assert_eq!(score(PhysicalDeviceType::VirtualGpu), 0);
    assert_eq!(score(PhysicalDeviceType::Cpu), 0);
    assert_eq!(score(PhysicalDeviceType::Other), 0);
}

#[test]
fn no_device_is_no_suitable_gpu() {
    assert_eq!(pick_physical_device(&Vec::new()), Err(InitError::NoSuitableGpu));
}

#[test]
fn discrete_gpu_is_preferred() {
    let types = vec![
        PhysicalDeviceType::IntegratedGpu,
        PhysicalDeviceType::DiscreteGpu,
        PhysicalDeviceType::Cpu,
    ];
    assert_eq!(pick_physical_device(&types), Ok(1));
    let types = vec![PhysicalDeviceType::Cpu, PhysicalDeviceType::IntegratedGpu];
    assert_eq!(pick_physical_device(&types), Ok(1));
    let types = vec![PhysicalDeviceType::IntegratedGpu, PhysicalDeviceType::VirtualGpu];
    assert_eq!(pick_physical_device(&types), Ok(0));
}

#[test]
fn last_of_equally_good_devices_is_picked() {
    let types = vec![
        PhysicalDeviceType::DiscreteGpu,
        PhysicalDeviceType::IntegratedGpu,
        PhysicalDeviceType::DiscreteGpu,
        PhysicalDeviceType::Other,
    ];
    assert_eq!(pick_physical_device(&types), Ok(2));
    let types = vec![PhysicalDeviceType::Cpu, PhysicalDeviceType::Other];
    assert_eq!(pick_physical_device(&types), Ok(1));
    assert_eq!(pick_physical_device(&vec![PhysicalDeviceType::Cpu]), Ok(0));
}

#[test]
fn picked_device_is_the_one_the_iterator_picks() {
    let kinds = [
        PhysicalDeviceType::Other,
        PhysicalDeviceType::IntegratedGpu,
        PhysicalDeviceType::DiscreteGpu,
        PhysicalDeviceType::VirtualGpu,
        PhysicalDeviceType::Cpu,
    ];
    let mut code: usize = 0;
    while code < 125 {
        let types = vec![kinds[code % 5], kinds[code / 5 % 5], kinds[code / 25]];
        let expected = types.iter().enumerate().max_by_key(|(_, kind)| score(**kind)).map(|(i, _)| i);
        assert_eq!(pick_physical_device(&types).ok(), expected);
        code += 1;
    }
}

#[test]
fn device_is_created_with_the_features_the_engine_needs() {
    assert_eq!(
        create_device(4),
        DeviceCreateInfo {
            queue_family_index: 4,
            queue_count: 1,
            swapchain_extension: true,
            buffer_device_address: true,
            descriptor_indexing: true,
            descriptor_binding_partially_bound: true,
            descriptor_binding_sampled_image_update_after_bind: true,
            dynamic_rendering: true,
            synchronization2: true,
        }
    );
}

#[test]
fn first_family_with_all_flags_is_selected() {
    let graphics = vk::QueueFlags::GRAPHICS.as_raw();
    let compute = vk::QueueFlags::COMPUTE.as_raw();
    let transfer = vk::QueueFlags::TRANSFER.as_raw();
    let families = vec![transfer, compute | transfer, graphics | compute | transfer, graphics];
    assert_eq!(select_queue_family(&families, graphics), Ok(2));
    assert_eq!(select_queue_family(&families, compute), Ok(1));
    assert_eq!(select_queue_family(&families, transfer), Ok(0));
    assert_eq!(select_queue_family(&families, graphics | compute), Ok(2));
    assert_eq!(select_queue_family(&families, compute | transfer), Ok(1));
}

#[test]
fn family_with_some_of_the_flags_is_not_enough() {
    let families = vec![0b0101, 0b0011, 0b1000];
    assert_eq!(select_queue_family(&families, 0b0110), Err(InitError::NoQueueFamily));
    assert_eq!(select_queue_family(&families, 0b0111), Err(InitError::NoQueueFamily));
    assert_eq!(select_queue_family(&families, 0b1001), Err(InitError::NoQueueFamily));
    assert_eq!(select_queue_family(&families, 0b0001), Ok(0));
    assert_eq!(select_queue_family(&families, 0b0010), Ok(1));
}

#[test]
fn no_flags_are_found_in_the_first_family() {
    assert_eq!(select_queue_family(&vec![0, 7], 0), Ok(0));
    assert_eq!(select_queue_family(&Vec::new(), 0), Err(InitError::NoQueueFamily));
    assert_eq!(select_queue_family(&Vec::new(), 1), Err(InitError::NoQueueFamily));
}

#[test]
fn shader_words_are_read_lowest_byte_first() {
    let binary = vec![0x03, 0x02, 0x23, 0x07, 0x78, 0x56, 0x34, 0x12, 0xFF, 0x00, 0x00, 0x80];
    match load_shader_module(&binary) {
        Ok(info) => assert_eq!(info.code, vec![SPIRV_MAGIC_NUMBER, 0x1234_5678, 0x8000_00FF]),
        Err(_) => panic!("a binary with the magic number is accepted"),
    }
}

#[test]
fn shader_words_are_turned_around_when_the_magic_number_is() {
    let binary = vec![0x07, 0x23, 0x02, 0x03, 0x12, 0x34, 0x56, 0x78, 0x80, 0x00, 0x00, 0xFF];
    match load_shader_module(&binary) {
        Ok(info) => assert_eq!(info.code, vec![0x0723_0203, 0x1234_5678, 0x8000_00FF]),
        Err(_) => panic!("a binary with the magic number is accepted"),
    }
}

#[test]
fn shader_of_the_magic_number_alone_is_one_word() {
    match load_shader_module(&vec![0x03, 0x02, 0x23, 0x07]) {
        Ok(info) => assert_eq!(info.code, vec![0x0723_0203]),
        Err(_) => panic!("a binary with the magic number is accepted"),
    }
}

#[test]
fn shader_of_a_broken_length_is_refused() {
    let binary = vec![0x03, 0x02, 0x23, 0x07, 0x00];
    assert_eq!(load_shader_module(&binary), Err(ShaderError::LengthNotMultipleOfFour));
    assert_eq!(load_shader_module(&vec![0x03]), Err(ShaderError::LengthNotMultipleOfFour));
    assert_eq!(
        load_shader_module(&vec![0x03, 0x02, 0x23]),
        Err(ShaderError::LengthNotMultipleOfFour)
    );
}

#[test]
fn shader_without_the_magic_number_is_refused() {
    let binary = vec![0x00, 0x02, 0x23, 0x07, 0x03, 0x02, 0x23, 0x07];
    assert_eq!(load_shader_module(&binary), Err(ShaderError::MissingMagicNumber));
    assert_eq!(load_shader_module(&Vec::new()), Err(ShaderError::MissingMagicNumber));
    assert_eq!(
        load_shader_module(&vec![0x02, 0x03, 0x07, 0x23]),
        Err(ShaderError::MissingMagicNumber)
    );
}
