//! Builders for the descriptions that the engine hands to the graphics API.

use vstd::prelude::*;
use crate::commands::AttachmentLoadOp;
use crate::commands::AttachmentStoreOp;
use crate::commands::Command;
use crate::commands::CommandBuffer;
use crate::commands::Filter;
use crate::commands::ImageBlit;
use crate::commands::RenderingAttachmentInfo;
use crate::extent::Extent2D;
use crate::image::Image;
use crate::layout::whole_image;
use crate::layout::ImageAspect;
use crate::layout::ImageLayout;
use crate::layout::ImageSubresourceRange;
use crate::layout::REMAINING_ARRAY_LAYERS;
use crate::layout::REMAINING_MIP_LEVELS;

verus! {

/// Image type: two-dimensional.
pub const IMAGE_TYPE_2D: i32 = 1;

/// Image view type: two-dimensional.
pub const IMAGE_VIEW_TYPE_2D: i32 = 1;

/// Sample count flag: one sample per pixel.
pub const SAMPLE_COUNT_1: u32 = 0x1;

/// Width, height and depth of an image.
#[derive(Clone, Copy, Debug, PartialEq, Eq, Structural)]
pub struct Extent3D {
    pub width: u32,
    pub height: u32,
    pub depth: u32,
}

/// How an image is created.
#[derive(Clone, Copy, Debug, PartialEq, Eq, Structural)]
pub struct ImageCreateInfo {
    pub image_type: i32,
    pub format: i32,
    pub extent: Extent3D,
    pub mip_levels: u32,
    pub array_layers: u32,
    pub samples: u32,
    pub usage: u32,
}

/// How a view over an image is created. The components are not swizzled.
#[derive(Clone, Copy, Debug, PartialEq, Eq, Structural)]
pub struct ImageViewCreateInfo {
    pub image: u64,
    pub view_type: i32,
    pub format: i32,
    pub subresource_range: ImageSubresourceRange,
}

/// A semaphore in a submission, with the stages that wait for it or signal
/// it.
#[derive(Clone, Copy, Debug, PartialEq, Eq, Structural)]
pub struct SemaphoreSubmitInfo {
    pub semaphore: u64,
    pub value: u64,
    pub stage_mask: u64,
}

/// A command buffer in a submission.
#[derive(Clone, Copy, Debug, PartialEq, Eq, Structural)]
pub struct CommandBufferSubmitInfo {
    pub command_buffer: u64,
}

/// One submission to a queue.
#[derive(Clone, Debug, PartialEq, Eq)]
pub struct SubmitInfo {
    pub wait_semaphore_infos: Vec<SemaphoreSubmitInfo>,
    pub command_buffer_infos: Vec<CommandBufferSubmitInfo>,
    pub signal_semaphore_infos: Vec<SemaphoreSubmitInfo>,
}

/// A dynamic rendering pass: its area, which starts at the origin, and its
/// attachments.
#[derive(Clone, Debug, PartialEq, Eq)]
pub struct RenderingInfo {
    pub render_area: Extent2D,
    pub layer_count: u32,
    pub color_attachments: Vec<RenderingAttachmentInfo>,
    pub depth_attachment: Option<RenderingAttachmentInfo>,
}

/// The blit that copies `src_size` of `src` onto `dst_size` of `dst`.
pub open spec fn blit_of(src: u64, dst: u64, src_size: Extent2D, dst_size: Extent2D) -> ImageBlit {
    ImageBlit {
        src_image: src,
        src_image_layout: ImageLayout::TransferSrcOptimal,
        src_size,
        dst_image: dst,
        dst_image_layout: ImageLayout::TransferDstOptimal,
        dst_size,
        layer_count: 1,
        filter: Filter::Linear,
    }
}

/// An attachment on the view of `image`, in `layout`. Its old content is
/// cleared to `clear` where one is given and kept where none is; what the
/// pass draws is stored.
pub fn rendering_attachment_info(
    image: &Image,
    clear: Option<[u32; 4]>,
    layout: ImageLayout,
) -> (info: RenderingAttachmentInfo)
    ensures
        info.image_view == image.view_spec(),
        info.image_layout == layout,
        info.load_op == if clear.is_some() {
            AttachmentLoadOp::Clear
        } else {
            AttachmentLoadOp::Load
        },
        info.store_op == AttachmentStoreOp::Store,
        info.clear_value == clear,
{
    RenderingAttachmentInfo {
        image_view: image.view(),
        image_layout: layout,
        load_op: if clear.is_some() {
            AttachmentLoadOp::Clear
        } else {
            AttachmentLoadOp::Load
        },
        store_op: AttachmentStoreOp::Store,
        clear_value: clear,
    }
}

/// A pass of one layer over `render_extent` with the given attachments.
pub fn rendering_info(
    render_extent: Extent2D,
    color_attachment_info: Vec<RenderingAttachmentInfo>,
    depth_attachment_info: Option<RenderingAttachmentInfo>,
) -> (info: RenderingInfo)
    ensures
        info.render_area == render_extent,
        info.layer_count == 1,
        info.color_attachments@ == color_attachment_info@,
        info.depth_attachment == depth_attachment_info,
{
    RenderingInfo {
        render_area: render_extent,
        layer_count: 1,
        color_attachments: color_attachment_info,
        depth_attachment: depth_attachment_info,
    }
}

/// Records a linear-filtered blit of the colour of `src` into `dst`: the
/// first `src_size` pixels of the one onto the first `dst_size` of the other,
/// scaled where the two differ. `src` has to be in the transfer-source
/// layout then, `dst` in the transfer-destination layout.
pub fn copy_image_to_image(
    cmd_buf: &mut CommandBuffer,
    src: &Image,
    dst: &Image,
    src_size: Extent2D,
    dst_size: Extent2D,
)
    ensures
        final(cmd_buf)@ == old(cmd_buf)@.push(
            Command::BlitImage {
                blit: blit_of(src.image_spec(), dst.image_spec(), src_size, dst_size),
            },
        ),
        final(cmd_buf).handle_spec() == old(cmd_buf).handle_spec(),
{
    let blit = ImageBlit {
        src_image: src.image(),
        src_image_layout: ImageLayout::TransferSrcOptimal,
        src_size,
        dst_image: dst.image(),
        dst_image_layout: ImageLayout::TransferDstOptimal,
        dst_size,
        layer_count: 1,
        filter: Filter::Linear,
    };
    cmd_buf.record(Command::BlitImage { blit });
}

/// A two-dimensional image of one mip level, one layer and one sample per
/// pixel.
pub fn image_create_info(format: i32, usage_flags: u32, extent: Extent2D) -> (info: ImageCreateInfo)
    ensures
        info == (ImageCreateInfo {
            image_type: IMAGE_TYPE_2D,
            format,
            extent: Extent3D { width: extent.width, height: extent.height, depth: 1 },
            mip_levels: 1,
            array_layers: 1,
            samples: SAMPLE_COUNT_1,
            usage: usage_flags,
        }),
{
    ImageCreateInfo {
        image_type: IMAGE_TYPE_2D,
        format,
        extent: Extent3D { width: extent.width, height: extent.height, depth: 1 },
        mip_levels: 1,
        array_layers: 1,
        samples: SAMPLE_COUNT_1,
        usage: usage_flags,
    }
}

/// A two-dimensional view over the first mip level and layer of `image`.
pub fn image_view_create_info(format: i32, image: u64, aspect_flags: ImageAspect) -> (info:
    ImageViewCreateInfo)
    ensures
        info == (ImageViewCreateInfo {
            image,
            view_type: IMAGE_VIEW_TYPE_2D,
            format,
            subresource_range: ImageSubresourceRange {
                aspect: aspect_flags,
                base_mip_level: 0,
                level_count: 1,
                base_array_layer: 0,
                layer_count: 1,
            },
        }),
{
    ImageViewCreateInfo {
        image,
        view_type: IMAGE_VIEW_TYPE_2D,
        format,
        subresource_range: ImageSubresourceRange {
            aspect: aspect_flags,
            base_mip_level: 0,
            level_count: 1,
            base_array_layer: 0,
            layer_count: 1,
        },
    }
}

/// `semaphore` at the stages `stage_mask`, with the value 1.
pub fn semaphore_submit_info(stage_mask: u64, semaphore: u64) -> (info: SemaphoreSubmitInfo)
    ensures
        info == (SemaphoreSubmitInfo { semaphore, value: 1, stage_mask }),
{
    SemaphoreSubmitInfo { semaphore, value: 1, stage_mask }
}

/// `cmd_buf` as part of a submission.
pub fn command_buffer_submit_info(cmd_buf: u64) -> (info: CommandBufferSubmitInfo)
    ensures
        info == (CommandBufferSubmitInfo { command_buffer: cmd_buf }),
{
    CommandBufferSubmitInfo { command_buffer: cmd_buf }
}

/// The submission that runs the command buffers once the semaphores to wait
/// for are signaled, and signals the others when they are done.
pub fn submit_info(
    cmd_buf_submit_info: Vec<CommandBufferSubmitInfo>,
    signal_semaphore_submit_info: Vec<SemaphoreSubmitInfo>,
    wait_semaphore_submit_info: Vec<SemaphoreSubmitInfo>,
) -> (info: SubmitInfo)
    ensures
        info.wait_semaphore_infos@ == wait_semaphore_submit_info@,
        info.signal_semaphore_infos@ == signal_semaphore_submit_info@,
        info.command_buffer_infos@ == cmd_buf_submit_info@,
{
    SubmitInfo {
        wait_semaphore_infos: wait_semaphore_submit_info,
        command_buffer_infos: cmd_buf_submit_info,
        signal_semaphore_infos: signal_semaphore_submit_info,
    }
}

/// The whole of an image under `aspect_mask`: every mip level and every
/// layer.
pub fn image_subresource_range(aspect_mask: ImageAspect) -> (range: ImageSubresourceRange)
    ensures
        range == whole_image(aspect_mask),
{
    ImageSubresourceRange {
        aspect: aspect_mask,
        base_mip_level: 0,
        level_count: REMAINING_MIP_LEVELS,
        base_array_layer: 0,
        layer_count: REMAINING_ARRAY_LAYERS,
    }
}

/// What kind of hardware a physical device is.
#[derive(Clone, Copy, Debug, PartialEq, Eq, Structural)]
pub enum PhysicalDeviceType {
    Other,
    IntegratedGpu,
    DiscreteGpu,
    VirtualGpu,
    Cpu,
}

/// Why the engine could not be brought up.
#[derive(Clone, Copy, Debug, PartialEq, Eq, Structural)]
pub enum InitError {
    /// There is no physical device at all.
    NoSuitableGpu,
    /// No queue family of the device has the capabilities asked for.
    NoQueueFamily,
}

/// Why a shader binary was turned down.
#[derive(Clone, Copy, Debug, PartialEq, Eq, Structural)]
pub enum ShaderError {
    /// The binary is not a whole number of 32-bit words.
    LengthNotMultipleOfFour,
    /// The binary does not begin with the SPIR-V magic number.
    MissingMagicNumber,
}

/// How the logical device is created: one queue of the family
/// `queue_family_index` at full priority, the swapchain extension, and the
/// features that the engine records with.
#[derive(Clone, Copy, Debug, PartialEq, Eq, Structural)]
pub struct DeviceCreateInfo {
    pub queue_family_index: u32,
    pub queue_count: u32,
    pub swapchain_extension: bool,
    pub buffer_device_address: bool,
    pub descriptor_indexing: bool,
    pub descriptor_binding_partially_bound: bool,
    pub descriptor_binding_sampled_image_update_after_bind: bool,
    pub dynamic_rendering: bool,
    pub synchronization2: bool,
}

/// How a shader module is created: from its code, word by word.
#[derive(Clone, Debug, PartialEq, Eq)]
pub struct ShaderModuleCreateInfo {
    pub code: Vec<u32>,
}

/// The first word of every SPIR-V binary.
pub const SPIRV_MAGIC_NUMBER: u32 = 0x0723_0203;

/// How much a device of the type `kind` is preferred.
pub open spec fn device_score(kind: PhysicalDeviceType) -> nat {
    match kind {
        PhysicalDeviceType::DiscreteGpu => 100,
        PhysicalDeviceType::IntegratedGpu => 75,
        _ => 0,
    }
}

/// Whether every flag of `want` is set in `have`.
pub open spec fn flags_contain(have: u32, want: u32) -> bool {
    have & want == want
}

/// The `index`-th 32-bit word of `bytes`, lowest byte first.
pub open spec fn word_le(bytes: Seq<u8>, index: int) -> u32 {
    (bytes[4 * index] as int + bytes[4 * index + 1] as int * 0x100 + bytes[4 * index + 2] as int
        * 0x1_0000 + bytes[4 * index + 3] as int * 0x100_0000) as u32
}

/// The `index`-th 32-bit word of `bytes`, highest byte first.
pub open spec fn word_be(bytes: Seq<u8>, index: int) -> u32 {
    (bytes[4 * index + 3] as int + bytes[4 * index + 2] as int * 0x100 + bytes[4 * index + 1] as int
        * 0x1_0000 + bytes[4 * index] as int * 0x100_0000) as u32
}

/// The words of the SPIR-V binary `bytes`, if it is one: a whole number of
/// words, at least one, read in the byte order in which the first of them is
/// the magic number.
pub open spec fn spirv_words(bytes: Seq<u8>) -> Option<Seq<u32>> {
    if bytes.len() % 4 != 0 || bytes.len() == 0 {
        None
    } else if word_le(bytes, 0) == SPIRV_MAGIC_NUMBER {
        Some(Seq::new(bytes.len() / 4, |i: int| word_le(bytes, i)))
    } else if word_be(bytes, 0) == SPIRV_MAGIC_NUMBER {
        Some(Seq::new(bytes.len() / 4, |i: int| word_be(bytes, i)))
    } else {
        None
    }
}

#[verifier::external_type_specification]
#[verifier::external_body]
pub struct ExIoError(std::io::Error);

/// `ash::vk::QueueFlags::contains`, on the raw flag sets: whether `want` is
/// a subset of `have`. Trusted: the flag type computes it as
/// `have & want == want`.
#[verifier::external_body]
fn queue_flags_contain(have: u32, want: u32) -> (contained: bool)
    ensures
        contained == flags_contain(have, want),
{
    ash::vk::QueueFlags::from_raw(have).contains(ash::vk::QueueFlags::from_raw(want))
}

/// `ash::util::read_spv`, on bytes in memory. Trusted: it fails unless the
/// length is a multiple of four and not zero; it reads the words in the
/// machine's byte order and turns every word around if the first one is the
/// magic number backwards; and it fails unless the first word then is the
/// magic number. So the outcome is the same on every machine.
#[verifier::external_body]
fn read_spv(bytes: &Vec<u8>) -> (words: Result<Vec<u32>, std::io::Error>)
    ensures
        match words {
            Ok(w) => spirv_words(bytes@) == Some(w@),
            Err(_) => spirv_words(bytes@).is_none(),
        },
{
    ash::util::read_spv(&mut std::io::Cursor::new(bytes.as_slice()))
}

/// Turns a SPIR-V binary into the description of a shader module: its
/// words, in the byte order that the magic number shows.
pub fn load_shader_module(binary: &Vec<u8>) -> (info: Result<ShaderModuleCreateInfo, ShaderError>)
    ensures
        binary@.len() % 4 != 0 ==> info == Err::<ShaderModuleCreateInfo, ShaderError>(
            ShaderError::LengthNotMultipleOfFour,
        ),
        binary@.len() % 4 == 0 && spirv_words(binary@).is_none() ==> info == Err::<
            ShaderModuleCreateInfo,
            ShaderError,
        >(ShaderError::MissingMagicNumber),
        spirv_words(binary@).is_some() ==> info.is_ok() && info.unwrap().code@ == spirv_words(
            binary@,
        ).unwrap(),
{
    match read_spv(binary) {
        Ok(code) => Ok(ShaderModuleCreateInfo { code }),
        Err(_) => {
            if binary.len() % 4 != 0 {
                Err(ShaderError::LengthNotMultipleOfFour)
            } else {
                Err(ShaderError::MissingMagicNumber)
            }
        },
    }
}

/// How much a device of the type `kind` is preferred.
pub fn score(kind: PhysicalDeviceType) -> (points: u32)
    ensures
        points == device_score(kind),
{
    match kind {
        PhysicalDeviceType::DiscreteGpu => 100,
        PhysicalDeviceType::IntegratedGpu => 75,
        _ => 0,
    }
}

/// Picks the device to render with among devices of the types
/// `device_types`, by index: one of the most preferred type, a discrete GPU
/// before an integrated one before anything else, and the last of them in
/// the list.
pub fn pick_physical_device(device_types: &Vec<PhysicalDeviceType>) -> (picked: Result<
    usize,
    InitError,
>)
    ensures
        device_types@.len() == 0 ==> picked == Err::<usize, InitError>(InitError::NoSuitableGpu),
        device_types@.len() > 0 ==> picked.is_ok() && ({
            let best = picked.unwrap() as int;
            &&& best < device_types@.len()
            &&& forall|i: int|
                0 <= i < device_types@.len() ==> device_score(#[trigger] device_types@[i])
                    <= device_score(device_types@[best])
            &&& forall|i: int|
                best < i < device_types@.len() ==> device_score(#[trigger] device_types@[i])
                    < device_score(device_types@[best])
        }),
{
    if device_types.len() == 0 {
        return Err(InitError::NoSuitableGpu);
    }
    let mut best: usize = 0;
    let mut i: usize = 1;
    while i < device_types.len()
        invariant
            1 <= i <= device_types.len(),
            best < i,
            forall|k: int|
                0 <= k < i ==> device_score(#[trigger] device_types@[k]) <= device_score(
                    device_types@[best as int],
                ),
            forall|k: int|
                best < k < i ==> device_score(#[trigger] device_types@[k]) < device_score(
                    device_types@[best as int],
                ),
        decreases device_types.len() - i,
    {
        if score(device_types[i]) >= score(device_types[best]) {
            best = i;
        }
        i += 1;
    }
    Ok(best)
}

/// How the logical device for the queue family `queue_family_idx` is
/// created.
pub fn create_device(queue_family_idx: u32) -> (info: DeviceCreateInfo)
    ensures
        info == (DeviceCreateInfo {
            queue_family_index: queue_family_idx,
            queue_count: 1,
            swapchain_extension: true,
            buffer_device_address: true,
            descriptor_indexing: true,
            descriptor_binding_partially_bound: true,
            descriptor_binding_sampled_image_update_after_bind: true,
            dynamic_rendering: true,
            synchronization2: true,
        }),
{
    DeviceCreateInfo {
        queue_family_index: queue_family_idx,
        queue_count: 1,
        swapchain_extension: true,
        buffer_device_address: true,
        descriptor_indexing: true,
        descriptor_binding_partially_bound: true,
        descriptor_binding_sampled_image_update_after_bind: true,
        dynamic_rendering: true,
        synchronization2: true,
    }
}

/// Finds the first queue family that can do all of `flags`, among families
/// with the capabilities `queue_flags`, by index.
pub fn select_queue_family(queue_flags: &Vec<u32>, flags: u32) -> (family: Result<u32, InitError>)
    requires
        queue_flags@.len() <= u32::MAX,
    ensures
        match family {
            Ok(index) => index < queue_flags@.len() && flags_contain(
                queue_flags@[index as int],
                flags,
            ) && forall|i: int| 0 <= i < index ==> !flags_contain(#[trigger] queue_flags@[i], flags),
            Err(e) => e == InitError::NoQueueFamily && forall|i: int|
                0 <= i < queue_flags@.len() ==> !flags_contain(#[trigger] queue_flags@[i], flags),
        },
{
    let mut i: usize = 0;
    while i < queue_flags.len()
        invariant
            i <= queue_flags.len(),
            queue_flags@.len() <= u32::MAX,
            forall|k: int| 0 <= k < i ==> !flags_contain(#[trigger] queue_flags@[k], flags),
        decreases queue_flags.len() - i,
    {
        if queue_flags_contain(queue_flags[i], flags) {
            return Ok(i as u32);
        }
        i += 1;
    }
    Err(InitError::NoQueueFamily)
}

} // verus!
