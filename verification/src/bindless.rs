//! The shared sets for bindless-style indexing: one set for each kind of
//! resource, each a single array of variable length.

use vstd::prelude::*;
use crate::descriptor::{
    binding_demand, demand, layout_valid, may_follow, push_binding, BindingLayoutCatalog,
    DescriptorBindingSpec, DescriptorWrite, LayoutHandle, PoolSizes, ResourceKind, SetHandle,
    STAGE_ALL, STAGE_MISS,
};
use crate::error::StartupError;

verus! {

/// The ceiling on the length of each bindless array.
pub const BINDLESS_ARRAY_LEN: u32 = 100;

/// The number of sets the helper's pool is made for.
pub const BINDLESS_MAX_SETS: u32 = 1000;

/// The one binding of a bindless set: binding zero of set zero, an array of
/// up to `BINDLESS_ARRAY_LEN` resources of one kind, of variable length.
pub open spec fn bindless_binding(kind: ResourceKind, visibility: u32) -> DescriptorBindingSpec {
    DescriptorBindingSpec {
        set: 0,
        binding: 0,
        kind,
        visibility,
        count: BINDLESS_ARRAY_LEN,
        variable_count: true,
        immutable_sampler: None,
    }
}

/// The pool and the four bindless layouts, each with its one set.
#[derive(Debug)]
pub struct DescriptorHelper {
    pub catalog: BindingLayoutCatalog,
    pub storage_image_set_layout: LayoutHandle,
    pub as_set_layout: LayoutHandle,
    pub sampled_image_set_layout: LayoutHandle,
    pub storage_buffer_set_layout: LayoutHandle,
    pub storage_image_set: SetHandle,
    pub as_set: SetHandle,
    pub sampled_image_set: SetHandle,
    pub storage_buffer_set: SetHandle,
}

impl DescriptorHelper {
    /// What a helper holds: four layouts of one bindless binding each, for
    /// storage images, acceleration structures, sampled images (seen by the
    /// miss stage alone) and storage buffers, in this order; one empty set
    /// of each, in the same order; and a pool that these four sets have
    /// drained of everything but its samplers.
    pub open spec fn wf(&self) -> bool {
        &&& self.catalog.wf()
        &&& self.catalog.capacity() == PoolSizes {
            acceleration_structures: BINDLESS_ARRAY_LEN,
            storage_buffers: BINDLESS_ARRAY_LEN,
            storage_images: BINDLESS_ARRAY_LEN,
            sampled_images: BINDLESS_ARRAY_LEN,
            samplers: BINDLESS_ARRAY_LEN,
        }
        &&& self.catalog.max_sets() == BINDLESS_MAX_SETS
        &&& self.catalog.available() == PoolSizes {
            acceleration_structures: 0,
            storage_buffers: 0,
            storage_images: 0,
            sampled_images: 0,
            samplers: BINDLESS_ARRAY_LEN,
        }
        &&& self.catalog.layouts().len() == 4
        &&& self.catalog.sets().len() == 4
        &&& self.storage_image_set_layout.index == 0
        &&& self.as_set_layout.index == 1
        &&& self.sampled_image_set_layout.index == 2
        &&& self.storage_buffer_set_layout.index == 3
        &&& self.storage_image_set.index == 0
        &&& self.as_set.index == 1
        &&& self.sampled_image_set.index == 2
        &&& self.storage_buffer_set.index == 3
        &&& self.catalog.layouts()[0].bindings@ == seq![
            bindless_binding(ResourceKind::StorageImage, STAGE_ALL),
        ]
        &&& self.catalog.layouts()[1].bindings@ == seq![
            bindless_binding(ResourceKind::AccelerationStructure, STAGE_ALL),
        ]
        &&& self.catalog.layouts()[2].bindings@ == seq![
            bindless_binding(ResourceKind::SampledImage, STAGE_MISS),
        ]
        &&& self.catalog.layouts()[3].bindings@ == seq![
            bindless_binding(ResourceKind::StorageBuffer, STAGE_ALL),
        ]
        &&& forall|i: int|
            0 <= i < 4 ==> (#[trigger] self.catalog.sets()[i]).layout.index == i
                && self.catalog.sets()[i].initial@ == Seq::<DescriptorWrite>::empty()
    }

    /// Declares the four bindless layouts over a pool of a hundred
    /// descriptors of every kind, and allocates one set of each.
    pub fn new() -> (r: Result<DescriptorHelper, StartupError>)
        ensures
            r matches Ok(helper) && helper.wf(),
    {
        let mut catalog = BindingLayoutCatalog::new(
            PoolSizes::uniform(BINDLESS_ARRAY_LEN),
            BINDLESS_MAX_SETS,
        );
        let storage_image_set_layout = catalog.create_layout(
            0,
            bindless_bindings(ResourceKind::StorageImage, STAGE_ALL),
        )?;
        let as_set_layout = catalog.create_layout(
            0,
            bindless_bindings(ResourceKind::AccelerationStructure, STAGE_ALL),
        )?;
        let sampled_image_set_layout = catalog.create_layout(
            0,
            bindless_bindings(ResourceKind::SampledImage, STAGE_MISS),
        )?;
        let storage_buffer_set_layout = catalog.create_layout(
            0,
            bindless_bindings(ResourceKind::StorageBuffer, STAGE_ALL),
        )?;
        let storage_image_set = catalog.allocate_set(storage_image_set_layout)?;
        let as_set = catalog.allocate_set(as_set_layout)?;
        let sampled_image_set = catalog.allocate_set(sampled_image_set_layout)?;
        let storage_buffer_set = catalog.allocate_set(storage_buffer_set_layout)?;
        proof {
            let left = catalog.available();
            assert(left.of(ResourceKind::AccelerationStructure) == 0);
            assert(left.of(ResourceKind::StorageBuffer) == 0);
            assert(left.of(ResourceKind::StorageImage) == 0);
            assert(left.of(ResourceKind::SampledImage) == 0);
            assert(left.of(ResourceKind::Sampler) == BINDLESS_ARRAY_LEN);
        }
        Ok(
            DescriptorHelper {
                catalog,
                storage_image_set_layout,
                as_set_layout,
                sampled_image_set_layout,
                storage_buffer_set_layout,
                storage_image_set,
                as_set,
                sampled_image_set,
                storage_buffer_set,
            },
        )
    }
}

/// The bindings of a bindless set for resources of kind `kind`.
pub fn bindless_bindings(kind: ResourceKind, visibility: u32) -> (bindings: Vec<
    DescriptorBindingSpec,
>)
    ensures
        bindings@ == seq![bindless_binding(kind, visibility)],
        layout_valid(0, bindings@),
        forall|k: ResourceKind| #[trigger]
            demand(bindings@, k) == binding_demand(bindless_binding(kind, visibility), k),
{
    let mut bindings: Vec<DescriptorBindingSpec> = Vec::new();
    let b = DescriptorBindingSpec {
        set: 0,
        binding: 0,
        kind,
        visibility,
        count: BINDLESS_ARRAY_LEN,
        variable_count: true,
        immutable_sampler: None,
    };
    proof {
        assert(layout_valid(0, bindings@));
        assert(may_follow(0, bindings@, b));
        assert forall|k: ResourceKind| demand(bindings@, k) == 0 by {}
    }
    push_binding(&mut bindings, b);
    proof {
        assert(bindings@ =~= seq![bindless_binding(kind, visibility)]);
    }
    bindings
}

} // verus!
