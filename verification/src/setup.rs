//! How the objects that the renderer draws with are created.

use vstd::prelude::*;
use crate::commands::ComputePushConstants;
use crate::descriptors::DescriptorAllocator;
use crate::descriptors::DescriptorLayoutBuilder;
use crate::descriptors::DescriptorPoolCreateInfo;
use crate::descriptors::DescriptorPoolSize;
use crate::descriptors::DescriptorSetLayoutBinding;
use crate::descriptors::DescriptorSetLayoutCreateInfo;
use crate::descriptors::PoolSizeRatio;
use crate::descriptors::DESCRIPTOR_TYPE_STORAGE_IMAGE;
use crate::descriptors::SHADER_STAGE_COMPUTE;
use crate::extent::Extent2D;
use crate::layout::ImageLayout;
use crate::renderer::ComputeEffect;
use crate::util::image_create_info;
use crate::util::Extent3D;
use crate::util::ImageCreateInfo;
use crate::util::IMAGE_TYPE_2D;
use crate::util::SAMPLE_COUNT_1;

verus! {

/// Pixel format of the render target: four 16-bit floats.
pub const FORMAT_R16G16B16A16_SFLOAT: i32 = 97;

/// What the render target is used for: it is written by compute shaders as
/// a storage image, drawn onto, and copied from and to.
pub const DRAW_IMAGE_USAGE: u32 = 0x1B;

/// Number of descriptor sets that the renderer's pool holds.
pub const MAX_DESCRIPTOR_SETS: u32 = 10;

/// Size of the constants pushed to a compute effect, in bytes.
pub const PUSH_CONSTANTS_SIZE: u32 = 64;

/// The bits of the 32-bit float 1.0.
pub const ONE: u32 = 0x3F80_0000;

/// A write of one image into a descriptor set.
#[derive(Clone, Copy, Debug, PartialEq, Eq, Structural)]
pub struct DescriptorImageWrite {
    pub dst_set: u64,
    pub dst_binding: u32,
    pub descriptor_type: i32,
    pub image_view: u64,
    pub image_layout: ImageLayout,
}

/// How the pipeline layout of the compute effects is created: one set
/// layout and one range of push constants.
#[derive(Clone, Copy, Debug, PartialEq, Eq, Structural)]
pub struct PipelineLayoutCreateInfo {
    pub set_layout: u64,
    pub push_constant_stage_flags: u32,
    pub push_constant_offset: u32,
    pub push_constant_size: u32,
}

/// How a compute pipeline is created. The entry point is `main`.
#[derive(Clone, Copy, Debug, PartialEq, Eq, Structural)]
pub struct ComputePipelineCreateInfo {
    pub layout: u64,
    pub stage: u32,
    pub module: u64,
}

/// Where an allocation lives.
#[derive(Clone, Copy, Debug, PartialEq, Eq, Structural)]
pub enum MemoryLocation {
    GpuOnly,
    CpuToGpu,
    GpuToCpu,
}

/// How the memory of an image is allocated.
#[derive(Clone, Copy, Debug, PartialEq, Eq, Structural)]
pub struct AllocationCreateInfo {
    pub location: MemoryLocation,
    pub linear: bool,
    /// The image that gets the allocation to itself.
    pub dedicated_image: u64,
}

/// How the render target for a window of the size `window_extent` is
/// created.
pub fn draw_image_info(window_extent: Extent2D) -> (info: ImageCreateInfo)
    ensures
        info == (ImageCreateInfo {
            image_type: IMAGE_TYPE_2D,
            format: FORMAT_R16G16B16A16_SFLOAT,
            extent: Extent3D {
                width: window_extent.width,
                height: window_extent.height,
                depth: 1,
            },
            mip_levels: 1,
            array_layers: 1,
            samples: SAMPLE_COUNT_1,
            usage: DRAW_IMAGE_USAGE,
        }),
{
    image_create_info(FORMAT_R16G16B16A16_SFLOAT, DRAW_IMAGE_USAGE, window_extent)
}

/// How the memory of the image `image` is allocated: on the device, not
/// linear, and for this image alone.
pub fn image_allocation_info(image: u64) -> (info: AllocationCreateInfo)
    ensures
        info == (AllocationCreateInfo {
            location: MemoryLocation::GpuOnly,
            linear: false,
            dedicated_image: image,
        }),
{
    AllocationCreateInfo { location: MemoryLocation::GpuOnly, linear: false, dedicated_image: image }
}

/// How the renderer's descriptor pool is created: ten sets, one storage
/// image each.
pub fn descriptor_pool_info() -> (info: DescriptorPoolCreateInfo)
    ensures
        info.max_sets == MAX_DESCRIPTOR_SETS,
        info.pool_sizes@ == seq![
            DescriptorPoolSize {
                ty: DESCRIPTOR_TYPE_STORAGE_IMAGE,
                descriptor_count: MAX_DESCRIPTOR_SETS,
            },
        ],
{
    let mut ratios: Vec<PoolSizeRatio> = Vec::new();
    ratios.push(PoolSizeRatio { ty: DESCRIPTOR_TYPE_STORAGE_IMAGE, ratio: 1 });
    let info = DescriptorAllocator::create_info(MAX_DESCRIPTOR_SETS, &ratios).unwrap();
    assert(info.pool_sizes@ =~= seq![
        DescriptorPoolSize {
            ty: DESCRIPTOR_TYPE_STORAGE_IMAGE,
            descriptor_count: MAX_DESCRIPTOR_SETS,
        },
    ]);
    info
}

/// How the layout of the render target's descriptor set is created: a
/// storage image at binding 0, for the compute stage.
pub fn draw_image_layout_info() -> (info: DescriptorSetLayoutCreateInfo)
    ensures
        info.flags == 0,
        info.bindings@ == seq![
            DescriptorSetLayoutBinding {
                binding: 0,
                descriptor_type: DESCRIPTOR_TYPE_STORAGE_IMAGE,
                descriptor_count: 1,
                stage_flags: SHADER_STAGE_COMPUTE,
            },
        ],
{
    let builder = DescriptorLayoutBuilder::new().add_binding(0, DESCRIPTOR_TYPE_STORAGE_IMAGE);
    let info = builder.build(SHADER_STAGE_COMPUTE, 0);
    proof {
        assert(0u32 | 0x20u32 == 0x20u32) by (bit_vector);
        assert(info.bindings@ =~= seq![
            DescriptorSetLayoutBinding {
                binding: 0,
                descriptor_type: DESCRIPTOR_TYPE_STORAGE_IMAGE,
                descriptor_count: 1,
                stage_flags: SHADER_STAGE_COMPUTE,
            },
        ]);
    }
    info
}

/// The write that puts the render target's view `view` into the set `set`,
/// as the storage image at binding 0, in the general layout.
pub fn draw_image_write(set: u64, view: u64) -> (write: DescriptorImageWrite)
    ensures
        write == (DescriptorImageWrite {
            dst_set: set,
            dst_binding: 0,
            descriptor_type: DESCRIPTOR_TYPE_STORAGE_IMAGE,
            image_view: view,
            image_layout: ImageLayout::General,
        }),
{
    DescriptorImageWrite {
        dst_set: set,
        dst_binding: 0,
        descriptor_type: DESCRIPTOR_TYPE_STORAGE_IMAGE,
        image_view: view,
        image_layout: ImageLayout::General,
    }
}

/// How the pipeline layout of the compute effects is created, over the set
/// layout `set_layout`.
pub fn compute_layout_info(set_layout: u64) -> (info: PipelineLayoutCreateInfo)
    ensures
        info == (PipelineLayoutCreateInfo {
            set_layout,
            push_constant_stage_flags: SHADER_STAGE_COMPUTE,
            push_constant_offset: 0,
            push_constant_size: PUSH_CONSTANTS_SIZE,
        }),
{
    PipelineLayoutCreateInfo {
        set_layout,
        push_constant_stage_flags: SHADER_STAGE_COMPUTE,
        push_constant_offset: 0,
        push_constant_size: PUSH_CONSTANTS_SIZE,
    }
}

/// How the compute pipeline with the shader `module` is created on
/// `layout`.
pub fn compute_pipeline_info(layout: u64, module: u64) -> (info: ComputePipelineCreateInfo)
    ensures
        info == (ComputePipelineCreateInfo { layout, stage: SHADER_STAGE_COMPUTE, module }),
{
    ComputePipelineCreateInfo { layout, stage: SHADER_STAGE_COMPUTE, module }
}

/// The three effects that the renderer starts with, over their pipelines:
/// a gradient from red to blue, a sky, and a slide.
pub fn background_effects(layout: u64, gradient: u64, sky: u64, slide: u64) -> (effects: Vec<
    ComputeEffect,
>)
    ensures
        effects@.len() == 3,
        effects@[0].pipeline == gradient,
        effects@[1].pipeline == sky,
        effects@[2].pipeline == slide,
        forall|i: int| 0 <= i < 3 ==> (#[trigger] effects@[i]).layout == layout,
        effects@[0].data.data1@ == seq![ONE, 0, 0, ONE],
        effects@[0].data.data2@ == seq![0, 0, ONE, ONE],
        effects@[1].data.data1@ == seq![0x3DCC_CCCDu32, 0x3E4C_CCCD, 0x3ECC_CCCD, 0x3F78_51EC],
        effects@[1].data.data2@ == seq![0u32, 0, 0, 0],
        effects@[2].data.data1@ == seq![0x3EDC_28F6u32, 0x3F0A_3D71, 0x3F28_3127, 0x3F00_0000],
        effects@[2].data.data2@ == seq![0x3EC2_8F5Cu32, 0x3F9E_B852, 0x3F50_A3D7, 0x3F4C_CCCD],
        forall|i: int|
            0 <= i < 3 ==> (#[trigger] effects@[i]).data.data3@ == seq![0u32, 0, 0, 0]
                && effects@[i].data.data4@ == seq![0u32, 0, 0, 0],
{
    let zero: [u32; 4] = [0, 0, 0, 0];
    let mut effects: Vec<ComputeEffect> = Vec::new();
    effects.push(
        ComputeEffect {
            name: "Gradient",
            pipeline: gradient,
            layout,
            data: ComputePushConstants {
                data1: [ONE, 0, 0, ONE],
                data2: [0, 0, ONE, ONE],
                data3: zero,
                data4: zero,
            },
        },
    );
    effects.push(
        ComputeEffect {
            name: "Sky",
            pipeline: sky,
            layout,
            data: ComputePushConstants {
                data1: [0x3DCC_CCCD, 0x3E4C_CCCD, 0x3ECC_CCCD, 0x3F78_51EC],
                data2: zero,
                data3: zero,
                data4: zero,
            },
        },
    );
    effects.push(
        ComputeEffect {
            name: "Slide",
            pipeline: slide,
            layout,
            data: ComputePushConstants {
                data1: [0x3EDC_28F6, 0x3F0A_3D71, 0x3F28_3127, 0x3F00_0000],
                data2: [0x3EC2_8F5C, 0x3F9E_B852, 0x3F50_A3D7, 0x3F4C_CCCD],
                data3: zero,
                data4: zero,
            },
        },
    );
    proof {
        assert(effects@[0].data.data1@ =~= seq![ONE, 0, 0, ONE]);
        assert(effects@[0].data.data2@ =~= seq![0, 0, ONE, ONE]);
        assert(effects@[1].data.data1@ =~= seq![
            0x3DCC_CCCDu32,
            0x3E4C_CCCD,
            0x3ECC_CCCD,
            0x3F78_51EC,
        ]);
        assert(effects@[1].data.data2@ =~= seq![0u32, 0, 0, 0]);
        assert(effects@[2].data.data1@ =~= seq![
            0x3EDC_28F6u32,
            0x3F0A_3D71,
            0x3F28_3127,
            0x3F00_0000,
        ]);
        assert(effects@[2].data.data2@ =~= seq![
            0x3EC2_8F5Cu32,
            0x3F9E_B852,
            0x3F50_A3D7,
            0x3F4C_CCCD,
        ]);
        assert(zero@ =~= seq![0u32, 0, 0, 0]);
    }
    effects
}

} // verus!
