use zenith::deletion_queue::DeviceOp;
use zenith::descriptors::DescriptorAllocator;
use zenith::descriptors::DescriptorError;
use zenith::descriptors::DescriptorLayoutBuilder;
use zenith::descriptors::DescriptorPoolReset;
use zenith::descriptors::DescriptorPoolSize;
use zenith::descriptors::DescriptorSetAllocateInfo;
use zenith::descriptors::DescriptorSetLayoutBinding;
use zenith::descriptors::PoolSizeRatio;

#[test]
fn builder_without_bindings_builds_an_empty_layout() {
    let info = DescriptorLayoutBuilder::new().build(0x20, 0);
    assert_eq!(info.flags, 0);
    assert_eq!(info.bindings, Vec::new());
}

#[test]
fn bindings_hold_one_descriptor_and_get_the_stages_at_build() {
    let info = DescriptorLayoutBuilder::new().add_binding(0, 3).add_binding(4, 6).build(0x20, 2);
    assert_eq!(info.flags, 2);
    assert_eq!(
        info.bindings,
        vec![
            DescriptorSetLayoutBinding {
                binding: 0,
                descriptor_type: 3,
                descriptor_count: 1,
                stage_flags: 0x20,
            },
            DescriptorSetLayoutBinding {
                binding: 4,
                descriptor_type: 6,
                descriptor_count: 1,
                stage_flags: 0x20,
            },
        ]
    );
}

#[test]
fn several_stages_are_all_set() {
    let info = DescriptorLayoutBuilder::new().add_binding(1, 3).build(0x20 | 0x10 | 0x1, 0);
    assert_eq!(info.bindings[0].stage_flags, 0x31);
}

#[test]
fn clear_drops_the_bindings() {
    let mut builder = DescriptorLayoutBuilder::new().add_binding(0, 3).add_binding(1, 3);
    builder.clear();
    let info = builder.add_binding(7, 1).build(0x10, 0);
    assert_eq!(
        info.bindings,
        vec![DescriptorSetLayoutBinding {
            binding: 7,
            descriptor_type: 1,
            descriptor_count: 1,
            stage_flags: 0x10,
        }]
    );
}

#[test]
fn pool_holds_ratio_times_sets_of_each_type() {
    let ratios = vec![PoolSizeRatio { ty: 3, ratio: 1 }, PoolSizeRatio { ty: 6, ratio: 4 }];
    match DescriptorAllocator::create_info(10, &ratios) {
        Ok(info) => {
            assert_eq!(info.max_sets, 10);
            assert_eq!(
                info.pool_sizes,
                vec![
                    DescriptorPoolSize { ty: 3, descriptor_count: 10 },
                    DescriptorPoolSize { ty: 6, descriptor_count: 40 },
                ]
            );
        }
        Err(_) => panic!("forty descriptors fit"),
    }
}

#[test]
fn pool_without_ratios_has_no_sizes() {
    match DescriptorAllocator::create_info(10, &Vec::new()) {
        Ok(info) => {
            assert_eq!(info.max_sets, 10);
            assert_eq!(info.pool_sizes, Vec::new());
        }
        Err(_) => panic!("nothing can overflow"),
    }
}

#[test]
fn pool_size_of_zero_is_allowed() {
    let ratios = vec![PoolSizeRatio { ty: 3, ratio: 0 }];
    match DescriptorAllocator::create_info(u32::MAX, &ratios) {
        Ok(info) => {
            assert_eq!(info.pool_sizes, vec![DescriptorPoolSize { ty: 3, descriptor_count: 0 }])
        }
        Err(_) => panic!("zero fits"),
    }
}

#[test]
fn largest_pool_size_that_fits() {
    let ratios = vec![PoolSizeRatio { ty: 3, ratio: 65_537 }];
    match DescriptorAllocator::create_info(65_535, &ratios) {
        Ok(info) => assert_eq!(info.pool_sizes[0].descriptor_count, u32::MAX),
        Err(_) => panic!("65537 * 65535 is the largest 32-bit number"),
    }
}

#[test]
fn pool_size_that_does_not_fit_is_refused() {
    let ratios = vec![PoolSizeRatio { ty: 3, ratio: 1 }, PoolSizeRatio { ty: 6, ratio: 65_536 }];
    assert_eq!(
        DescriptorAllocator::create_info(65_536, &ratios),
        Err(DescriptorError::PoolSizeOverflow)
    );
    let ratios = vec![PoolSizeRatio { ty: 3, ratio: u32::MAX }];
    assert_eq!(
        DescriptorAllocator::create_info(u32::MAX, &ratios),
        Err(DescriptorError::PoolSizeOverflow)
    );
}

#[test]
fn allocator_speaks_of_its_pool() {
    let allocator = DescriptorAllocator::new(62);
    assert_eq!(allocator.pool, 62);
    assert_eq!(
        allocator.clear_descriptors(),
        DescriptorPoolReset { descriptor_pool: 62, flags: 0 }
    );
    assert_eq!(allocator.destroy(), DeviceOp::DestroyDescriptorPool { pool: 62 });
    assert_eq!(
        allocator.allocate(61),
        DescriptorSetAllocateInfo { descriptor_pool: 62, set_layout: 61 }
    );
}
