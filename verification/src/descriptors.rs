//! Descriptor set layouts and the pool that descriptor sets come from.

use vstd::prelude::*;
use crate::deletion_queue::DeviceOp;

verus! {

/// Descriptor type: storage image.
pub const DESCRIPTOR_TYPE_STORAGE_IMAGE: i32 = 3;

/// Shader stage flag: compute.
pub const SHADER_STAGE_COMPUTE: u32 = 0x20;

/// One binding of a descriptor set layout.
#[derive(Clone, Copy, Debug, PartialEq, Eq, Structural)]
pub struct DescriptorSetLayoutBinding {
    pub binding: u32,
    pub descriptor_type: i32,
    pub descriptor_count: u32,
    pub stage_flags: u32,
}

/// How a descriptor set layout is created.
#[derive(Clone, Debug, PartialEq, Eq)]
pub struct DescriptorSetLayoutCreateInfo {
    pub flags: u32,
    pub bindings: Vec<DescriptorSetLayoutBinding>,
}

/// How many descriptors of one type a pool holds for each set.
#[derive(Clone, Copy, Debug, PartialEq, Eq, Structural)]
pub struct PoolSizeRatio {
    pub ty: i32,
    /// Descriptors per set, as a whole number.
    pub ratio: u32,
}

/// How many descriptors of one type a pool holds.
#[derive(Clone, Copy, Debug, PartialEq, Eq, Structural)]
pub struct DescriptorPoolSize {
    pub ty: i32,
    pub descriptor_count: u32,
}

/// How a descriptor pool is created.
#[derive(Clone, Debug, PartialEq, Eq)]
pub struct DescriptorPoolCreateInfo {
    pub max_sets: u32,
    pub pool_sizes: Vec<DescriptorPoolSize>,
}

/// How one descriptor set is allocated.
#[derive(Clone, Copy, Debug, PartialEq, Eq, Structural)]
pub struct DescriptorSetAllocateInfo {
    pub descriptor_pool: u64,
    pub set_layout: u64,
}

/// A request to return every set of a pool to it.
#[derive(Clone, Copy, Debug, PartialEq, Eq, Structural)]
pub struct DescriptorPoolReset {
    pub descriptor_pool: u64,
    pub flags: u32,
}

/// Why a pool could not be described.
#[derive(Clone, Copy, Debug, PartialEq, Eq, Structural)]
pub enum DescriptorError {
    /// A descriptor count does not fit in 32 bits.
    PoolSizeOverflow,
}

/// Collects the bindings of a descriptor set layout.
pub struct DescriptorLayoutBuilder {
    bindings: Vec<DescriptorSetLayoutBinding>,
}

impl View for DescriptorLayoutBuilder {
    type V = Seq<DescriptorSetLayoutBinding>;

    closed spec fn view(&self) -> Seq<DescriptorSetLayoutBinding> {
        self.bindings@
    }
}

/// `binding` with the stages `shader_stages` added to its own.
pub open spec fn with_stages(
    binding: DescriptorSetLayoutBinding,
    shader_stages: u32,
) -> DescriptorSetLayoutBinding {
    DescriptorSetLayoutBinding { stage_flags: binding.stage_flags | shader_stages, ..binding }
}

/// The pool size that `ratio` asks for in a pool of `max_sets` sets.
pub open spec fn pool_size(ratio: PoolSizeRatio, max_sets: u32) -> int {
    ratio.ratio as int * max_sets as int
}

impl DescriptorLayoutBuilder {
    /// A builder without bindings.
    pub fn new() -> (builder: DescriptorLayoutBuilder)
        ensures
            builder@ == Seq::<DescriptorSetLayoutBinding>::empty(),
    {
        DescriptorLayoutBuilder { bindings: Vec::new() }
    }

    /// Adds one descriptor of the type `kind` at the binding `binding`, for
    /// no stage yet.
    pub fn add_binding(self, binding: u32, kind: i32) -> (builder: DescriptorLayoutBuilder)
        ensures
            builder@ == self@.push(
                DescriptorSetLayoutBinding {
                    binding,
                    descriptor_type: kind,
                    descriptor_count: 1,
                    stage_flags: 0,
                },
            ),
    {
        let mut builder = self;
        builder.bindings.push(
            DescriptorSetLayoutBinding {
                binding,
                descriptor_type: kind,
                descriptor_count: 1,
                stage_flags: 0,
            },
        );
        builder
    }

    /// Drops every binding.
    pub fn clear(&mut self)
        ensures
            final(self)@ == Seq::<DescriptorSetLayoutBinding>::empty(),
    {
        self.bindings.clear();
    }

    /// How the layout is created: every binding, in the order it was added,
    /// made visible to `shader_stages` besides the stages it had.
    pub fn build(self, shader_stages: u32, flags: u32) -> (info: DescriptorSetLayoutCreateInfo)
        ensures
            info.flags == flags,
            info.bindings@ == Seq::new(self@.len(), |i: int| with_stages(self@[i], shader_stages)),
    {
        let mut bindings: Vec<DescriptorSetLayoutBinding> = Vec::new();
        let mut i: usize = 0;
        while i < self.bindings.len()
            invariant
                i <= self.bindings.len(),
                bindings@.len() == i,
                forall|k: int|
                    0 <= k < i ==> bindings@[k] == with_stages(self.bindings@[k], shader_stages),
            decreases self.bindings.len() - i,
        {
            let mut binding = self.bindings[i];
            binding.stage_flags = binding.stage_flags | shader_stages;
            bindings.push(binding);
            i += 1;
        }
        assert(bindings@ =~= Seq::new(self@.len(), |i: int| with_stages(self@[i], shader_stages)));
        DescriptorSetLayoutCreateInfo { flags, bindings }
    }
}

/// A descriptor pool.
#[derive(Clone, Copy, Debug, PartialEq, Eq, Structural)]
pub struct DescriptorAllocator {
    pub pool: u64,
}

impl DescriptorAllocator {
    /// How a pool for `max_sets` sets is created: for each ratio, that many
    /// descriptors of its type per set. A count that does not fit in 32 bits
    /// is refused.
    pub fn create_info(max_sets: u32, pool_ratios: &Vec<PoolSizeRatio>) -> (info: Result<
        DescriptorPoolCreateInfo,
        DescriptorError,
    >)
        ensures
            (exists|i: int|
                0 <= i < pool_ratios@.len() && pool_size(#[trigger] pool_ratios@[i], max_sets)
                    > u32::MAX) ==> info == Err::<DescriptorPoolCreateInfo, DescriptorError>(
                DescriptorError::PoolSizeOverflow,
            ),
            (forall|i: int|
                0 <= i < pool_ratios@.len() ==> pool_size(#[trigger] pool_ratios@[i], max_sets)
                    <= u32::MAX) ==> info.is_ok() && info.unwrap().max_sets == max_sets
                && info.unwrap().pool_sizes@.len() == pool_ratios@.len() && forall|i: int|
                0 <= i < pool_ratios@.len() ==> (#[trigger] info.unwrap().pool_sizes@[i])
                    == (DescriptorPoolSize {
                    ty: pool_ratios@[i].ty,
                    descriptor_count: pool_size(pool_ratios@[i], max_sets) as u32,
                }),
    {
        let mut pool_sizes: Vec<DescriptorPoolSize> = Vec::new();
        let mut i: usize = 0;
        while i < pool_ratios.len()
            invariant
                i <= pool_ratios.len(),
                pool_sizes@.len() == i,
                forall|k: int|
                    0 <= k < i ==> pool_size(#[trigger] pool_ratios@[k], max_sets) <= u32::MAX,
                forall|k: int|
                    0 <= k < i ==> (#[trigger] pool_sizes@[k]) == (DescriptorPoolSize {
                        ty: pool_ratios@[k].ty,
                        descriptor_count: pool_size(pool_ratios@[k], max_sets) as u32,
                    }),
            decreases pool_ratios.len() - i,
        {
            let ratio = pool_ratios[i];
            assert(ratio.ratio as int * max_sets as int <= 0xFFFF_FFFF * 0xFFFF_FFFF)
                by (nonlinear_arith)
                requires
                    0 <= ratio.ratio as int <= 0xFFFF_FFFF,
                    0 <= max_sets as int <= 0xFFFF_FFFF,
            ;
            let count: u64 = ratio.ratio as u64 * max_sets as u64;
            if count > 0xFFFF_FFFF {
                assert(pool_size(pool_ratios@[i as int], max_sets) > u32::MAX);
                return Err(DescriptorError::PoolSizeOverflow);
            }
            pool_sizes.push(DescriptorPoolSize { ty: ratio.ty, descriptor_count: count as u32 });
            i += 1;
        }
        Ok(DescriptorPoolCreateInfo { max_sets, pool_sizes })
    }

    /// The allocator over the pool `pool`.
    pub fn new(pool: u64) -> (allocator: DescriptorAllocator)
        ensures
            allocator.pool == pool,
    {
        DescriptorAllocator { pool }
    }

    /// The request that returns every set to the pool.
    pub fn clear_descriptors(&self) -> (reset: DescriptorPoolReset)
        ensures
            reset == (DescriptorPoolReset { descriptor_pool: self.pool, flags: 0 }),
    {
        DescriptorPoolReset { descriptor_pool: self.pool, flags: 0 }
    }

    /// The call that destroys the pool.
    pub fn destroy(&self) -> (op: DeviceOp)
        ensures
            op == (DeviceOp::DestroyDescriptorPool { pool: self.pool }),
    {
        DeviceOp::DestroyDescriptorPool { pool: self.pool }
    }

    /// How one set with the layout `layout` is allocated from the pool.
    pub fn allocate(&self, layout: u64) -> (info: DescriptorSetAllocateInfo)
        ensures
            info == (DescriptorSetAllocateInfo { descriptor_pool: self.pool, set_layout: layout }),
    {
        DescriptorSetAllocateInfo { descriptor_pool: self.pool, set_layout: layout }
    }
}

} // verus!
