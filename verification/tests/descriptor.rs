use po_renderer::bindless::{bindless_bindings, DescriptorHelper, BINDLESS_ARRAY_LEN};
use po_renderer::command::ImageSlot;
use po_renderer::descriptor::{
    check_layout, check_update, check_write, check_writes, covers, make_binding, push_binding,
    take_demand, BindingLayoutCatalog, DescriptorBindingSpec, DescriptorUpdate, DescriptorWrite,
    Filter, LayoutHandle, MirrorBuffer, PoolSizes, ResourceKind, SamplerAddressMode, SamplerSpec,
    SetHandle, STAGE_ALL, STAGE_MISS,
};
use po_renderer::error::StartupError;
use po_renderer::scene::BufferView;

fn buffer(binding: u32) -> DescriptorBindingSpec {
    make_binding(0, binding, ResourceKind::StorageBuffer, STAGE_ALL, 1)
}

fn variable(binding: u32, count: u32) -> DescriptorBindingSpec {
    DescriptorBindingSpec {
        set: 0,
        binding,
        kind: ResourceKind::SampledImage,
        visibility: STAGE_ALL,
        count,
        variable_count: true,
        immutable_sampler: None,
    }
}

fn sizes(n: u32) -> PoolSizes {
    PoolSizes::uniform(n)
}

#[test]
fn uniform_sizes_have_the_same_count_of_every_kind() {
    let s = PoolSizes::uniform(7);
    assert_eq!(s.get(ResourceKind::AccelerationStructure), 7);
    assert_eq!(s.get(ResourceKind::StorageBuffer), 7);
    assert_eq!(s.get(ResourceKind::StorageImage), 7);
    assert_eq!(s.get(ResourceKind::SampledImage), 7);
    assert_eq!(s.get(ResourceKind::Sampler), 7);
}

#[test]
fn a_layout_may_be_empty() {
    assert!(check_layout(0, &Vec::new()));
    assert!(check_layout(3, &Vec::new()));
}

#[test]
fn a_variable_length_binding_must_be_last() {
    assert!(check_layout(0, &vec![buffer(0), buffer(1), variable(2, 10)]));
    assert!(!check_layout(0, &vec![buffer(0), variable(1, 10), buffer(2)]));
    assert!(!check_layout(0, &vec![variable(0, 10), variable(1, 10)]));
}

#[test]
fn binding_numbers_must_increase() {
    assert!(check_layout(0, &vec![buffer(0), buffer(5), buffer(9)]));
    assert!(!check_layout(0, &vec![buffer(1), buffer(1)]));
    assert!(!check_layout(0, &vec![buffer(2), buffer(1)]));
}

#[test]
fn bindings_must_belong_to_the_set_and_hold_something() {
    assert!(!check_layout(1, &vec![buffer(0)]));
    assert!(!check_layout(0, &vec![make_binding(0, 0, ResourceKind::StorageBuffer, STAGE_ALL, 0)]));
}

#[test]
fn only_a_sampler_binding_has_a_built_in_sampler() {
    let sampler = SamplerSpec {
        mag_filter: Filter::Linear,
        min_filter: Filter::Linear,
        address_mode_u: SamplerAddressMode::ClampToEdge,
        address_mode_v: SamplerAddressMode::ClampToEdge,
    };
    let mut b = make_binding(0, 0, ResourceKind::Sampler, STAGE_ALL, 1);
    b.immutable_sampler = Some(sampler);
    assert!(check_layout(0, &vec![b]));
    b.kind = ResourceKind::SampledImage;
    assert!(!check_layout(0, &vec![b]));
}

#[test]
fn demand_adds_up_the_counts_of_one_kind() {
    let bindings = vec![
        buffer(0),
        make_binding(0, 1, ResourceKind::Sampler, STAGE_ALL, 500),
        buffer(2),
        make_binding(0, 3, ResourceKind::StorageBuffer, STAGE_ALL, 40),
    ];
    assert_eq!(take_demand(&bindings, ResourceKind::StorageBuffer, 42), Some(0));
    assert_eq!(take_demand(&bindings, ResourceKind::StorageBuffer, 50), Some(8));
    assert_eq!(take_demand(&bindings, ResourceKind::StorageBuffer, 41), None);
    assert_eq!(take_demand(&bindings, ResourceKind::Sampler, 500), Some(0));
    assert_eq!(take_demand(&bindings, ResourceKind::Sampler, 499), None);
    assert_eq!(take_demand(&bindings, ResourceKind::StorageImage, 0), Some(0));
}

#[test]
fn demand_beyond_thirty_two_bits_is_never_covered() {
    let bindings = vec![
        make_binding(0, 0, ResourceKind::Sampler, STAGE_ALL, u32::MAX),
        make_binding(0, 1, ResourceKind::Sampler, STAGE_ALL, u32::MAX),
    ];
    assert_eq!(take_demand(&bindings, ResourceKind::Sampler, u32::MAX), None);
    assert!(!covers(&sizes(u32::MAX), &bindings));
}

#[test]
fn push_binding_appends() {
    let mut bindings = vec![buffer(0)];
    push_binding(&mut bindings, buffer(1));
    assert_eq!(bindings, vec![buffer(0), buffer(1)]);
}

#[test]
fn create_layout_refuses_what_the_pool_can_never_hold() {
    let mut catalog = BindingLayoutCatalog::new(sizes(4), 10);
    let big = vec![make_binding(0, 0, ResourceKind::StorageBuffer, STAGE_ALL, 5)];
    assert_eq!(catalog.create_layout(0, big), Err(StartupError::LayoutCreationError));
    assert!(catalog.declared_layouts().is_empty());
    let fits = vec![make_binding(0, 0, ResourceKind::StorageBuffer, STAGE_ALL, 4)];
    assert_eq!(catalog.create_layout(0, fits), Ok(LayoutHandle { index: 0 }));
    assert_eq!(catalog.declared_layouts().len(), 1);
    assert_eq!(catalog.declared_layouts()[0].set, 0);
}

#[test]
fn create_layout_refuses_a_malformed_layout() {
    let mut catalog = BindingLayoutCatalog::new(sizes(100), 10);
    let bad = vec![variable(0, 1), buffer(1)];
    assert_eq!(catalog.create_layout(0, bad), Err(StartupError::LayoutCreationError));
    assert!(catalog.declared_layouts().is_empty());
    assert_eq!(catalog.pool_available(), sizes(100));
}

#[test]
fn allocation_takes_from_the_pool_until_it_is_exhausted() {
    let mut catalog = BindingLayoutCatalog::new(sizes(5), 10);
    let layout = catalog
        .create_layout(0, vec![buffer(0), buffer(1), variable(2, 3)])
        .unwrap();
    assert_eq!(catalog.allocate_set(layout), Ok(SetHandle { index: 0 }));
    let left = catalog.pool_available();
    assert_eq!(left.storage_buffers, 3);
    assert_eq!(left.sampled_images, 2);
    assert_eq!(left.samplers, 5);
    assert_eq!(catalog.allocate_set(layout), Err(StartupError::LayoutCreationError));
    assert_eq!(catalog.pool_available(), left);
    assert_eq!(catalog.allocated_sets().len(), 1);
    assert_eq!(catalog.pool_capacity(), sizes(5));
}

#[test]
fn allocation_stops_at_the_number_of_sets() {
    let mut catalog = BindingLayoutCatalog::new(sizes(100), 2);
    let layout = catalog.create_layout(0, vec![buffer(0)]).unwrap();
    assert_eq!(catalog.allocate_set(layout), Ok(SetHandle { index: 0 }));
    assert_eq!(catalog.allocate_set(layout), Ok(SetHandle { index: 1 }));
    assert_eq!(catalog.allocate_set(layout), Err(StartupError::LayoutCreationError));
    assert_eq!(catalog.pool_max_sets(), 2);
    assert_eq!(catalog.pool_available().storage_buffers, 98);
}

#[test]
fn allocation_with_a_handle_of_no_layout_fails() {
    let mut catalog = BindingLayoutCatalog::new(sizes(100), 2);
    assert_eq!(
        catalog.allocate_set(LayoutHandle { index: 0 }),
        Err(StartupError::LayoutCreationError)
    );
}

#[test]
fn build_set_keeps_the_initial_writes() {
    let mut catalog = BindingLayoutCatalog::new(sizes(100), 2);
    let layout = catalog
        .create_layout(
            1,
            vec![
                make_binding(1, 0, ResourceKind::StorageImage, STAGE_ALL, 1),
                make_binding(1, 1, ResourceKind::StorageImage, STAGE_ALL, 1),
            ],
        )
        .unwrap();
    let writes = vec![
        DescriptorWrite { binding: 0, update: DescriptorUpdate::PassImage(ImageSlot::Color) },
        DescriptorWrite {
            binding: 1,
            update: DescriptorUpdate::PassImage(ImageSlot::AmbientOcclusion),
        },
    ];
    let set = catalog.build_set(layout, writes.clone()).unwrap();
    assert_eq!(set, SetHandle { index: 0 });
    assert_eq!(catalog.allocated_sets()[0].layout, layout);
    assert_eq!(catalog.allocated_sets()[0].initial, writes);
    assert_eq!(catalog.pool_available().storage_images, 98);
}

#[test]
fn build_set_refuses_a_write_that_does_not_fit() {
    let mut catalog = BindingLayoutCatalog::new(sizes(100), 2);
    let layout = catalog.create_layout(0, vec![buffer(0)]).unwrap();
    let no_such_binding =
        vec![DescriptorWrite { binding: 1, update: DescriptorUpdate::MirrorBuffer(MirrorBuffer::GeometryInfos) }];
    assert_eq!(catalog.build_set(layout, no_such_binding), Err(StartupError::LayoutCreationError));
    let wrong_kind = vec![DescriptorWrite { binding: 0, update: DescriptorUpdate::Image(4) }];
    assert_eq!(catalog.build_set(layout, wrong_kind), Err(StartupError::LayoutCreationError));
    assert!(catalog.allocated_sets().is_empty());
    assert_eq!(catalog.pool_available(), sizes(100));
}

#[test]
fn an_update_fits_a_binding_of_its_kind() {
    let b = buffer(0);
    let view = BufferView { buffer: 1, offset: 0 };
    assert!(check_update(&b, &DescriptorUpdate::SceneBuffer(view)));
    assert!(check_update(&b, &DescriptorUpdate::MirrorBuffer(MirrorBuffer::MaterialInfos)));
    assert!(!check_update(&b, &DescriptorUpdate::AccelerationStructure(1)));
    let tlas = make_binding(0, 0, ResourceKind::AccelerationStructure, STAGE_ALL, 1);
    assert!(check_update(&tlas, &DescriptorUpdate::AccelerationStructure(1)));
    let sampled = make_binding(0, 0, ResourceKind::SampledImage, STAGE_MISS, 1);
    assert!(check_update(&sampled, &DescriptorUpdate::Image(3)));
    assert!(!check_update(&sampled, &DescriptorUpdate::PassImage(ImageSlot::Color)));
    let storage = make_binding(0, 0, ResourceKind::StorageImage, STAGE_ALL, 1);
    assert!(check_update(&storage, &DescriptorUpdate::PassImage(ImageSlot::Color)));
    assert!(check_update(&storage, &DescriptorUpdate::Image(3)));
}

#[test]
fn an_array_write_must_be_neither_empty_nor_too_long() {
    let samplers = make_binding(0, 6, ResourceKind::Sampler, STAGE_ALL, 500);
    assert!(!check_update(&samplers, &DescriptorUpdate::SceneSamplers(0)));
    assert!(check_update(&samplers, &DescriptorUpdate::SceneSamplers(1)));
    assert!(check_update(&samplers, &DescriptorUpdate::SceneSamplers(500)));
    assert!(!check_update(&samplers, &DescriptorUpdate::SceneSamplers(501)));
    assert!(!check_update(&samplers, &DescriptorUpdate::SceneImages(1)));
    let images = make_binding(0, 7, ResourceKind::SampledImage, STAGE_ALL, 500);
    assert!(!check_update(&images, &DescriptorUpdate::SceneImages(0)));
    assert!(check_update(&images, &DescriptorUpdate::SceneImages(500)));
    assert!(!check_update(&images, &DescriptorUpdate::SceneImages(501)));
}

#[test]
fn writes_are_checked_one_by_one() {
    let bindings = vec![buffer(1), buffer(3)];
    let ok = DescriptorWrite { binding: 3, update: DescriptorUpdate::MirrorBuffer(MirrorBuffer::GeometryInfos) };
    let bad = DescriptorWrite { binding: 2, update: DescriptorUpdate::MirrorBuffer(MirrorBuffer::GeometryInfos) };
    assert!(check_write(&bindings, &ok));
    assert!(!check_write(&bindings, &bad));
    assert!(check_writes(&bindings, &vec![ok, ok]));
    assert!(!check_writes(&bindings, &vec![ok, bad]));
    assert!(check_writes(&bindings, &Vec::new()));
}

#[test]
fn the_helper_declares_four_bindless_sets() {
    let helper = DescriptorHelper::new().unwrap();
    assert_eq!(BINDLESS_ARRAY_LEN, 100);
    assert_eq!(helper.catalog.pool_capacity(), PoolSizes::uniform(100));
    assert_eq!(helper.catalog.pool_max_sets(), 1000);
    let layouts = helper.catalog.declared_layouts();
    assert_eq!(layouts.len(), 4);
    let kinds: Vec<ResourceKind> = layouts.iter().map(|l| l.bindings[0].kind).collect();
    assert_eq!(
        kinds,
        vec![
            ResourceKind::StorageImage,
            ResourceKind::AccelerationStructure,
            ResourceKind::SampledImage,
            ResourceKind::StorageBuffer
        ]
    );
    for l in layouts.iter() {
        assert_eq!(l.bindings.len(), 1);
        assert_eq!(l.bindings[0].binding, 0);
        assert_eq!(l.bindings[0].count, 100);
        assert!(l.bindings[0].variable_count);
    }
    assert_eq!(layouts[2].bindings[0].visibility, STAGE_MISS);
    assert_eq!(layouts[0].bindings[0].visibility, STAGE_ALL);
    assert_eq!(helper.catalog.allocated_sets().len(), 4);
    assert_eq!(helper.storage_image_set, SetHandle { index: 0 });
    assert_eq!(helper.as_set, SetHandle { index: 1 });
    assert_eq!(helper.sampled_image_set, SetHandle { index: 2 });
    assert_eq!(helper.storage_buffer_set, SetHandle { index: 3 });
    assert_eq!(helper.storage_buffer_set_layout, LayoutHandle { index: 3 });
    let left = helper.catalog.pool_available();
    assert_eq!(
        left,
        PoolSizes {
            acceleration_structures: 0,
            storage_buffers: 0,
            storage_images: 0,
            sampled_images: 0,
            samplers: 100
        }
    );
}

#[test]
fn bindless_bindings_hold_one_variable_array() {
    let b = bindless_bindings(ResourceKind::StorageBuffer, STAGE_ALL);
    assert_eq!(b.len(), 1);
    assert!(check_layout(0, &b));
    assert_eq!(b[0].kind, ResourceKind::StorageBuffer);
}

#[test]
fn measuring_a_layout_counts_each_kind() {
    let bindings = vec![
        make_binding(0, 0, ResourceKind::AccelerationStructure, STAGE_ALL, 1),
        buffer(1),
        buffer(2),
        make_binding(0, 3, ResourceKind::Sampler, STAGE_ALL, 500),
        make_binding(0, 4, ResourceKind::SampledImage, STAGE_ALL, 7),
    ];
    assert_eq!(
        po_renderer::descriptor::measure(&bindings),
        Some(PoolSizes {
            acceleration_structures: 1,
            storage_buffers: 2,
            storage_images: 0,
            sampled_images: 7,
            samplers: 500
        })
    );
    assert_eq!(po_renderer::descriptor::measure(&Vec::new()), Some(PoolSizes::uniform(0)));
    assert_eq!(
        po_renderer::descriptor::count_demand(&bindings, ResourceKind::StorageBuffer),
        Some(2)
    );
}

#[test]
fn a_layout_beyond_thirty_two_bits_cannot_be_measured() {
    let bindings = vec![
        make_binding(0, 0, ResourceKind::Sampler, STAGE_ALL, u32::MAX),
        make_binding(0, 1, ResourceKind::Sampler, STAGE_ALL, 1),
    ];
    assert_eq!(po_renderer::descriptor::measure(&bindings), None);
    assert_eq!(po_renderer::descriptor::count_demand(&bindings, ResourceKind::Sampler), None);
    assert_eq!(
        po_renderer::descriptor::count_demand(&bindings, ResourceKind::StorageBuffer),
        Some(0)
    );
    let at_the_limit = vec![make_binding(0, 0, ResourceKind::Sampler, STAGE_ALL, u32::MAX)];
    assert_eq!(
        po_renderer::descriptor::count_demand(&at_the_limit, ResourceKind::Sampler),
        Some(u32::MAX)
    );
}

#[test]
fn sizes_add_kind_by_kind() {
    let a = PoolSizes {
        acceleration_structures: 1,
        storage_buffers: 2,
        storage_images: 3,
        sampled_images: 4,
        samplers: 5,
    };
    let b = PoolSizes::uniform(10);
    assert_eq!(
        a.plus(&b),
        Some(PoolSizes {
            acceleration_structures: 11,
            storage_buffers: 12,
            storage_images: 13,
            sampled_images: 14,
            samplers: 15
        })
    );
    assert_eq!(a.plus(&PoolSizes::uniform(u32::MAX - 4)), None);
    assert_eq!(
        PoolSizes::uniform(0).plus(&PoolSizes::uniform(u32::MAX)),
        Some(PoolSizes::uniform(u32::MAX))
    );
}
