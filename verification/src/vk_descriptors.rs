//! Descriptor set layouts and the pool that descriptor sets come from.

use crate::vk;
use crate::vk_types::Release;
use vstd::prelude::*;

verus! {

/// One binding of a descriptor set layout.
#[derive(Clone, Copy, Debug, PartialEq, Eq, Structural)]
pub struct DescriptorSetLayoutBinding {
    pub binding: u32,
    pub descriptor_type: i32,
    pub descriptor_count: u32,
    pub stage_flags: u32,
}

/// A descriptor set layout ready to be created.
#[derive(Clone, Debug, PartialEq, Eq)]
pub struct DescriptorSetLayoutCreateInfo {
    pub flags: u32,
    pub bindings: Vec<DescriptorSetLayoutBinding>,
}

/// Collects the bindings of a descriptor set layout.
#[derive(Clone, Debug, PartialEq, Eq)]
pub struct DescriptorSetLayoutBuilder {
    pub bindings: Vec<DescriptorSetLayoutBinding>,
}

/// A binding as it is created, with the given stages added to those it
/// was declared for.
pub open spec fn with_stages(b: DescriptorSetLayoutBinding, shader_stages: u32) -> DescriptorSetLayoutBinding {
    DescriptorSetLayoutBinding {
        binding: b.binding,
        descriptor_type: b.descriptor_type,
        descriptor_count: b.descriptor_count,
        stage_flags: b.stage_flags | shader_stages,
    }
}

impl DescriptorSetLayoutBuilder {
    /// A builder without bindings.
    pub fn new() -> (builder: DescriptorSetLayoutBuilder)
        ensures
            builder.bindings@ == Seq::<DescriptorSetLayoutBinding>::empty(),
    {
        DescriptorSetLayoutBuilder { bindings: Vec::new() }
    }

    /// Appends a binding of one descriptor of the given type, visible to no
    /// stage yet.
    pub fn add_binding(&mut self, binding: u32, descriptor_type: i32)
        ensures
            final(self).bindings@ == old(self).bindings@.push(
                DescriptorSetLayoutBinding {
                    binding,
                    descriptor_type,
                    descriptor_count: 1,
                    stage_flags: 0,
                },
            ),
    {
        self.bindings.push(
            DescriptorSetLayoutBinding {
                binding,
                descriptor_type,
                descriptor_count: 1,
                stage_flags: 0,
            },
        );
    }

    /// Removes every binding.
    pub fn clear(&mut self)
        ensures
            final(self).bindings@ == Seq::<DescriptorSetLayoutBinding>::empty(),
    {
        self.bindings.clear();
    }

    /// Finishes the layout: every binding, in the order added, made visible
    /// to `shader_stages` besides the stages it already had.
    pub fn build(self, shader_stages: u32) -> (info: DescriptorSetLayoutCreateInfo)
        ensures
            info.flags == 0,
            info.bindings@.len() == self.bindings@.len(),
            forall|i: int|
                0 <= i < self.bindings@.len() ==> info.bindings@[i] == with_stages(
                    #[trigger] self.bindings@[i],
                    shader_stages,
                ),
    {
        let mut bindings: Vec<DescriptorSetLayoutBinding> = Vec::new();
        let mut i: usize = 0;
        while i < self.bindings.len()
            invariant
                i <= self.bindings@.len(),
                bindings@.len() == i,
                forall|j: int|
                    0 <= j < i ==> bindings@[j] == with_stages(
                        #[trigger] self.bindings@[j],
                        shader_stages,
                    ),
            decreases self.bindings@.len() - i,
        {
            let b = self.bindings[i];
            bindings.push(
                DescriptorSetLayoutBinding {
                    binding: b.binding,
                    descriptor_type: b.descriptor_type,
                    descriptor_count: b.descriptor_count,
                    stage_flags: b.stage_flags | shader_stages,
                },
            );
            i += 1;
        }
        DescriptorSetLayoutCreateInfo { flags: 0, bindings }
    }
}

/// How many descriptors of one type a pool holds, as a fraction of the
/// number of sets it can hand out.
#[derive(Clone, Copy, Debug, PartialEq, Eq, Structural)]
pub struct PoolSizeRatio {
    pub descriptor_type: i32,
    pub numerator: u32,
    pub denominator: u32,
}

/// Room for `descriptor_count` descriptors of type `ty`.
#[derive(Clone, Copy, Debug, PartialEq, Eq, Structural)]
pub struct DescriptorPoolSize {
    pub ty: i32,
    pub descriptor_count: u32,
}

/// A descriptor pool ready to be created.
#[derive(Clone, Debug, PartialEq, Eq)]
pub struct DescriptorPoolCreateInfo {
    pub flags: u32,
    pub max_sets: u32,
    pub pool_sizes: Vec<DescriptorPoolSize>,
}

/// One descriptor set from `descriptor_pool` with the layout `set_layout`.
#[derive(Clone, Copy, Debug, PartialEq, Eq, Structural)]
pub struct DescriptorSetAllocateInfo {
    pub descriptor_pool: vk::Handle,
    pub set_layout: vk::Handle,
}

impl PoolSizeRatio {
    /// The descriptors that a pool of `max_sets` sets gets under this
    /// ratio: the fraction of `max_sets`, rounded down, and at most the
    /// largest 32-bit count. A ratio over zero stands for no descriptors.
    pub open spec fn spec_count(self, max_sets: u32) -> int {
        if self.denominator == 0 {
            0
        } else {
            let exact = (max_sets * self.numerator) / (self.denominator as int);
            if exact > u32::MAX {
                u32::MAX as int
            } else {
                exact
            }
        }
    }

    /// Computes the descriptors that a pool of `max_sets` sets gets under
    /// this ratio.
    pub fn count(&self, max_sets: u32) -> (n: u32)
        ensures
            n == self.spec_count(max_sets),
    {
        if self.denominator == 0 {
            return 0;
        }
        proof {
            assert(max_sets * self.numerator <= 0xFFFF_FFFF * 0xFFFF_FFFF) by (nonlinear_arith)
                requires
                    0 <= max_sets <= 0xFFFF_FFFF,
                    0 <= self.numerator <= 0xFFFF_FFFF,
            ;
        }
        let product: u64 = (max_sets as u64) * (self.numerator as u64);
        let exact: u64 = product / (self.denominator as u64);
        if exact > 0xFFFF_FFFF {
            0xFFFF_FFFF
        } else {
            exact as u32
        }
    }
}

/// A reset of a descriptor pool.
#[derive(Clone, Copy, Debug, PartialEq, Eq, Structural)]
pub struct DescriptorPoolReset {
    pub descriptor_pool: vk::Handle,
    pub flags: u32,
}

/// Hands out descriptor sets from one pool.
#[derive(Clone, Copy, Debug, PartialEq, Eq, Structural)]
pub struct DescriptorAllocator {
    pub pool: vk::Handle,
}

impl Default for DescriptorAllocator {
    fn default() -> (a: DescriptorAllocator)
        ensures
            a.pool == vk::NULL_HANDLE,
    {
        DescriptorAllocator { pool: vk::NULL_HANDLE }
    }
}

impl DescriptorAllocator {
    /// Sizes a pool for `max_sets` sets: one entry per ratio, in order,
    /// each with the count that the ratio gives for `max_sets`.
    pub fn init_pool(max_sets: u32, pool_ratios: &Vec<PoolSizeRatio>) -> (info:
        DescriptorPoolCreateInfo)
        ensures
            info.flags == 0,
            info.max_sets == max_sets,
            info.pool_sizes@.len() == pool_ratios@.len(),
            forall|i: int|
                0 <= i < pool_ratios@.len() ==> (#[trigger] info.pool_sizes@[i]).ty
                    == pool_ratios@[i].descriptor_type && info.pool_sizes@[i].descriptor_count
                    == pool_ratios@[i].spec_count(max_sets),
    {
        let mut pool_sizes: Vec<DescriptorPoolSize> = Vec::new();
        let mut i: usize = 0;
        while i < pool_ratios.len()
            invariant
                i <= pool_ratios@.len(),
                pool_sizes@.len() == i,
                forall|j: int|
                    0 <= j < i ==> (#[trigger] pool_sizes@[j]).ty == pool_ratios@[j].descriptor_type
                        && pool_sizes@[j].descriptor_count == pool_ratios@[j].spec_count(max_sets),
            decreases pool_ratios@.len() - i,
        {
            let ratio = pool_ratios[i];
            pool_sizes.push(
                DescriptorPoolSize {
                    ty: ratio.descriptor_type,
                    descriptor_count: ratio.count(max_sets),
                },
            );
            i += 1;
        }
        DescriptorPoolCreateInfo { flags: 0, max_sets, pool_sizes }
    }

    /// The allocator of sets from `pool`.
    pub fn new(pool: vk::Handle) -> (a: DescriptorAllocator)
        ensures
            a.pool == pool,
    {
        DescriptorAllocator { pool }
    }

    /// The request for one descriptor set of the given layout.
    pub fn allocate(&self, layout: vk::Handle) -> (info: DescriptorSetAllocateInfo)
        ensures
            info == (DescriptorSetAllocateInfo { descriptor_pool: self.pool, set_layout: layout }),
    {
        DescriptorSetAllocateInfo { descriptor_pool: self.pool, set_layout: layout }
    }

    /// The reset that takes back every set that came from the pool.
    pub fn clear_descriptors(&self) -> (reset: DescriptorPoolReset)
        ensures
            reset == (DescriptorPoolReset { descriptor_pool: self.pool, flags: 0 }),
    {
        DescriptorPoolReset { descriptor_pool: self.pool, flags: 0 }
    }

    /// The step that destroys the pool, and with it every set from it.
    pub fn destroy_pool(&self) -> (step: Release)
        ensures
            step == Release::DestroyDescriptorPool(self.pool),
    {
        Release::DestroyDescriptorPool(self.pool)
    }
}

} // verus!
