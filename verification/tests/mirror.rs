use po_renderer::descriptor::{DescriptorUpdate, DescriptorWrite, MirrorBuffer};
use po_renderer::error::FrameError;
use po_renderer::mirror::{
    convert_materials, flatten_meshes, plan_scene_writes, SceneGpuMirror, BINDING_COLOR_BUFFER,
    BINDING_IMAGES, BINDING_SAMPLERS, BINDING_TEX_COORD_BUFFER,
};
use po_renderer::records::{GeometryInfo, MaterialInfo};
use po_renderer::scene::{BufferView, Material, MeshInfo, PrimitiveInfo, Scene, Texture};

fn primitive(seed: u64) -> PrimitiveInfo {
    PrimitiveInfo {
        index_offset: seed * 12,
        vertex_offset: seed * 36,
        index_count: 3,
        vertex_count: 3,
        material_index: 0,
        color_offset: None,
        tex_coord_offset: None,
    }
}

fn mesh(first: u64, count: u64) -> MeshInfo {
    MeshInfo { primitive_infos: (first..first + count).map(primitive).collect() }
}

fn scene(identity: u64, meshes: Vec<MeshInfo>) -> Scene {
    Scene {
        identity,
        tlas: 77,
        index_buffer: BufferView { buffer: 1, offset: 0 },
        vertex_buffer: BufferView { buffer: 2, offset: 16 },
        transform_buffer: BufferView { buffer: 3, offset: 0 },
        mesh_infos: meshes,
        material_infos: vec![Material {
            base_color_factor: [0x3F80_0000; 4],
            base_color_texture: None,
            metallic_roughness_texture: None,
        }],
        image_count: 0,
        sampler_count: 0,
        color_buffer: None,
        tex_coord_buffer: None,
        instances: Vec::new(),
    }
}

#[test]
fn a_new_mirror_holds_nothing() {
    let mirror = SceneGpuMirror::new(500);
    assert_eq!(mirror.identity(), None);
    assert!(mirror.geometry_infos().is_empty());
    assert!(mirror.geometry_info_offsets().is_empty());
    assert!(mirror.material_infos().is_empty());
    assert!(mirror.buffer_bytes(MirrorBuffer::GeometryInfos).is_empty());
    assert!(mirror.buffer_bytes(MirrorBuffer::GeometryInfoOffsets).is_empty());
    assert!(mirror.buffer_bytes(MirrorBuffer::MaterialInfos).is_empty());
}

#[test]
fn one_triangle_gives_one_record_and_offsets_zero_one() {
    let s = scene(1, vec![mesh(0, 1)]);
    let mut mirror = SceneGpuMirror::new(500);
    let outcome = mirror.sync(&s).unwrap();
    assert!(outcome.reloaded);
    assert_eq!(mirror.geometry_infos().len(), 1);
    let record = mirror.geometry_infos()[0];
    assert_eq!(record.material_index, 0);
    assert_eq!(record.has_color, 0);
    assert_eq!(record.has_tex_coord, 0);
    assert_eq!(record.index_count, 3);
    assert_eq!(record.vertex_count, 3);
    assert_eq!(mirror.geometry_info_offsets(), &vec![0u32, 1]);
}

#[test]
fn a_scene_without_meshes_has_the_offset_table_zero() {
    let s = scene(5, Vec::new());
    let mut mirror = SceneGpuMirror::new(500);
    let outcome = mirror.sync(&s).unwrap();
    assert!(outcome.reloaded);
    assert_eq!(mirror.geometry_info_offsets(), &vec![0u32]);
    assert!(mirror.geometry_infos().is_empty());
    assert_eq!(mirror.buffer_bytes(MirrorBuffer::GeometryInfoOffsets), &vec![0u8, 0, 0, 0]);
    assert!(mirror.buffer_bytes(MirrorBuffer::GeometryInfos).is_empty());
}

#[test]
fn the_offset_table_accumulates_primitive_counts() {
    let s = scene(2, vec![mesh(0, 2), mesh(2, 0), mesh(2, 3), mesh(5, 1)]);
    let mut mirror = SceneGpuMirror::new(500);
    mirror.sync(&s).unwrap();
    let offsets = mirror.geometry_info_offsets().clone();
    assert_eq!(offsets, vec![0u32, 2, 2, 5, 6]);
    assert_eq!(offsets.len(), s.mesh_infos.len() + 1);
    for (i, m) in s.mesh_infos.iter().enumerate() {
        assert_eq!((offsets[i + 1] - offsets[i]) as usize, m.primitive_infos.len());
    }
    assert_eq!(mirror.geometry_infos().len(), 6);
    for (k, record) in mirror.geometry_infos().iter().enumerate() {
        assert_eq!(record.index_offset, k as u64 * 12);
        assert_eq!(record.vertex_offset, k as u64 * 36);
    }
}

#[test]
fn flatten_meshes_follows_traversal_order() {
    let s = scene(2, vec![mesh(10, 1), mesh(20, 2)]);
    let (records, offsets) = flatten_meshes(&s).unwrap();
    assert_eq!(offsets, vec![0u32, 1, 3]);
    let starts: Vec<u64> = records.iter().map(|r| r.index_offset).collect();
    assert_eq!(starts, vec![120u64, 240, 252]);
}

#[test]
fn a_second_sync_with_the_same_scene_uploads_nothing() {
    let s = scene(3, vec![mesh(0, 2)]);
    let mut mirror = SceneGpuMirror::new(500);
    let first = mirror.sync(&s).unwrap();
    assert!(first.reloaded);
    assert_eq!(first.uploads.len(), 3);
    let bytes_before = mirror.buffer_bytes(MirrorBuffer::GeometryInfos).clone();
    let second = mirror.sync(&s).unwrap();
    assert!(!second.reloaded);
    assert!(second.uploads.is_empty());
    assert!(second.writes.is_empty());
    assert_eq!(mirror.identity(), Some(3));
    assert_eq!(mirror.buffer_bytes(MirrorBuffer::GeometryInfos), &bytes_before);
}

#[test]
fn a_sync_with_another_scene_reloads_all_three_buffers() {
    let a = scene(3, vec![mesh(0, 2)]);
    let b = scene(4, vec![mesh(0, 1), mesh(1, 1), mesh(2, 1)]);
    let mut mirror = SceneGpuMirror::new(500);
    mirror.sync(&a).unwrap();
    let outcome = mirror.sync(&b).unwrap();
    assert!(outcome.reloaded);
    assert_eq!(
        outcome.uploads,
        vec![
            MirrorBuffer::GeometryInfos,
            MirrorBuffer::GeometryInfoOffsets,
            MirrorBuffer::MaterialInfos
        ]
    );
    assert_eq!(mirror.identity(), Some(4));
    assert_eq!(mirror.geometry_info_offsets(), &vec![0u32, 1, 2, 3]);
    assert_eq!(mirror.buffer_bytes(MirrorBuffer::GeometryInfos).len(), 3 * 64);
    assert_eq!(mirror.buffer_bytes(MirrorBuffer::GeometryInfoOffsets).len(), 4 * 4);
    assert_eq!(mirror.buffer_bytes(MirrorBuffer::MaterialInfos).len(), 48);
}

#[test]
fn the_same_content_under_another_identity_is_another_scene() {
    let a = scene(8, vec![mesh(0, 1)]);
    let b = scene(9, vec![mesh(0, 1)]);
    let mut mirror = SceneGpuMirror::new(500);
    mirror.sync(&a).unwrap();
    assert!(mirror.sync(&b).unwrap().reloaded);
    assert_eq!(mirror.identity(), Some(9));
}

#[test]
fn absent_resources_are_not_written() {
    let s = scene(1, vec![mesh(0, 1)]);
    let mut mirror = SceneGpuMirror::new(500);
    let outcome = mirror.sync(&s).unwrap();
    let bindings: Vec<u32> = outcome.writes.iter().map(|w| w.binding).collect();
    assert_eq!(bindings, vec![1u32, 2, 3, 4, 5, 8]);
    assert!(!bindings.contains(&BINDING_SAMPLERS));
    assert!(!bindings.contains(&BINDING_IMAGES));
    assert!(!bindings.contains(&BINDING_COLOR_BUFFER));
    assert!(!bindings.contains(&BINDING_TEX_COORD_BUFFER));
}

#[test]
fn present_resources_are_written_after_the_six_fixed_ones() {
    let mut s = scene(1, vec![mesh(0, 1)]);
    s.sampler_count = 2;
    s.image_count = 3;
    s.color_buffer = Some(BufferView { buffer: 9, offset: 64 });
    s.tex_coord_buffer = Some(BufferView { buffer: 10, offset: 128 });
    let writes = plan_scene_writes(&s);
    assert_eq!(
        writes,
        vec![
            DescriptorWrite {
                binding: 1,
                update: DescriptorUpdate::SceneBuffer(BufferView { buffer: 1, offset: 0 })
            },
            DescriptorWrite {
                binding: 2,
                update: DescriptorUpdate::SceneBuffer(BufferView { buffer: 2, offset: 16 })
            },
            DescriptorWrite {
                binding: 3,
                update: DescriptorUpdate::MirrorBuffer(MirrorBuffer::GeometryInfos)
            },
            DescriptorWrite {
                binding: 4,
                update: DescriptorUpdate::MirrorBuffer(MirrorBuffer::GeometryInfoOffsets)
            },
            DescriptorWrite {
                binding: 5,
                update: DescriptorUpdate::SceneBuffer(BufferView { buffer: 3, offset: 0 })
            },
            DescriptorWrite {
                binding: 8,
                update: DescriptorUpdate::MirrorBuffer(MirrorBuffer::MaterialInfos)
            },
            DescriptorWrite { binding: 6, update: DescriptorUpdate::SceneSamplers(2) },
            DescriptorWrite { binding: 7, update: DescriptorUpdate::SceneImages(3) },
            DescriptorWrite {
                binding: 9,
                update: DescriptorUpdate::SceneBuffer(BufferView { buffer: 9, offset: 64 })
            },
            DescriptorWrite {
                binding: 10,
                update: DescriptorUpdate::SceneBuffer(BufferView { buffer: 10, offset: 128 })
            },
        ]
    );
}

#[test]
fn only_the_colour_buffer_is_written_when_only_it_is_present() {
    let mut s = scene(1, Vec::new());
    s.color_buffer = Some(BufferView { buffer: 9, offset: 0 });
    let bindings: Vec<u32> = plan_scene_writes(&s).iter().map(|w| w.binding).collect();
    assert_eq!(bindings, vec![1u32, 2, 3, 4, 5, 8, 9]);
}

#[test]
fn too_many_samplers_fail_the_upload_and_leave_the_mirror_alone() {
    let good = scene(1, vec![mesh(0, 2)]);
    let mut bad = scene(2, vec![mesh(0, 1)]);
    bad.sampler_count = 501;
    let mut mirror = SceneGpuMirror::new(500);
    mirror.sync(&good).unwrap();
    let offsets = mirror.geometry_info_offsets().clone();
    assert_eq!(mirror.sync(&bad).unwrap_err(), FrameError::SceneUploadFailed);
    assert_eq!(mirror.identity(), Some(1));
    assert_eq!(mirror.geometry_info_offsets(), &offsets);
    assert_eq!(mirror.geometry_infos().len(), 2);
}

#[test]
fn too_many_images_fail_the_upload() {
    let mut bad = scene(2, vec![mesh(0, 1)]);
    bad.image_count = 501;
    let mut mirror = SceneGpuMirror::new(500);
    assert_eq!(mirror.sync(&bad).unwrap_err(), FrameError::SceneUploadFailed);
    assert_eq!(mirror.identity(), None);
    assert!(mirror.geometry_info_offsets().is_empty());
}

#[test]
fn arrays_at_the_ceiling_are_accepted() {
    let mut s = scene(2, vec![mesh(0, 1)]);
    s.image_count = 500;
    s.sampler_count = 500;
    let mut mirror = SceneGpuMirror::new(500);
    assert!(mirror.sync(&s).unwrap().reloaded);
}

#[test]
fn materials_resolve_their_textures() {
    let materials = vec![
        Material {
            base_color_factor: [1, 2, 3, 4],
            base_color_texture: Some(Texture { sampler_index: 7, image_index: 9 }),
            metallic_roughness_texture: None,
        },
        Material {
            base_color_factor: [5, 6, 7, 8],
            base_color_texture: None,
            metallic_roughness_texture: Some(Texture { sampler_index: 1, image_index: 2 }),
        },
    ];
    let records = convert_materials(&materials);
    assert_eq!(
        records,
        vec![
            MaterialInfo {
                base_color_factor: [1, 2, 3, 4],
                has_base_color_texture: 1,
                base_color_sampler_index: 7,
                base_color_image_index: 9,
                has_metallic_roughness_texture: 0,
                metallic_roughness_sampler_index: 0,
                metallic_roughness_image_index: 0,
                padding: 0,
            },
            MaterialInfo {
                base_color_factor: [5, 6, 7, 8],
                has_base_color_texture: 0,
                base_color_sampler_index: 0,
                base_color_image_index: 0,
                has_metallic_roughness_texture: 1,
                metallic_roughness_sampler_index: 1,
                metallic_roughness_image_index: 2,
                padding: 0,
            },
        ]
    );
}

#[test]
fn the_buffers_hold_the_encoded_records() {
    let s = scene(2, vec![mesh(1, 1)]);
    let mut mirror = SceneGpuMirror::new(500);
    mirror.sync(&s).unwrap();
    let bytes = mirror.buffer_bytes(MirrorBuffer::GeometryInfos).clone();
    assert_eq!(GeometryInfo::decode(&bytes, 0), mirror.geometry_infos()[0]);
    assert_eq!(
        mirror.buffer_bytes(MirrorBuffer::GeometryInfoOffsets),
        &vec![0u8, 0, 0, 0, 1, 0, 0, 0]
    );
}
