use po_renderer::records::{GeometryInfo, MaterialInfo};
use po_renderer::shading::{
    color_source, locate_geometry, rng, triangle_corners, vertex_slots, ColorSource, VertexSlots,
};

fn geometry(index_offset: u64, index_count: u64) -> GeometryInfo {
    GeometryInfo {
        index_offset,
        vertex_offset: 0,
        index_count,
        vertex_count: 0,
        material_index: 0,
        color_offset: 0,
        tex_coord_offset: 0,
        has_color: 0,
        has_tex_coord: 0,
    }
}

fn material(has_texture: u32) -> MaterialInfo {
    MaterialInfo {
        base_color_factor: [0; 4],
        has_base_color_texture: has_texture,
        base_color_sampler_index: 3,
        base_color_image_index: 4,
        has_metallic_roughness_texture: 0,
        metallic_roughness_sampler_index: 0,
        metallic_roughness_image_index: 0,
        padding: 0,
    }
}

#[test]
fn a_geometry_is_found_behind_its_mesh_offset() {
    let offsets = vec![0u32, 2, 2, 5];
    assert_eq!(locate_geometry(&offsets, 0, 0), Some(0));
    assert_eq!(locate_geometry(&offsets, 0, 1), Some(1));
    assert_eq!(locate_geometry(&offsets, 0, 2), None);
    assert_eq!(locate_geometry(&offsets, 1, 0), None);
    assert_eq!(locate_geometry(&offsets, 2, 0), Some(2));
    assert_eq!(locate_geometry(&offsets, 2, 2), Some(4));
    assert_eq!(locate_geometry(&offsets, 2, 3), None);
    assert_eq!(locate_geometry(&offsets, 3, 0), None);
    assert_eq!(locate_geometry(&offsets, usize::MAX, 0), None);
    assert_eq!(locate_geometry(&offsets, 0, usize::MAX), None);
}

#[test]
fn a_table_without_a_mesh_finds_nothing() {
    assert_eq!(locate_geometry(&Vec::new(), 0, 0), None);
    assert_eq!(locate_geometry(&vec![0], 0, 0), None);
}

#[test]
fn a_triangle_reads_three_indices_behind_the_offset() {
    let indices: Vec<u32> = (100..112).collect();
    let g = geometry(8, 9);
    assert_eq!(triangle_corners(&g, &indices, 0), Some((102, 103, 104)));
    assert_eq!(triangle_corners(&g, &indices, 1), Some((105, 106, 107)));
    assert_eq!(triangle_corners(&g, &indices, 2), Some((108, 109, 110)));
    assert_eq!(triangle_corners(&g, &indices, 3), None);
}

#[test]
fn a_triangle_beyond_the_buffer_is_not_read() {
    let indices: Vec<u32> = (0..7).collect();
    assert_eq!(triangle_corners(&geometry(0, 9), &indices, 1), Some((3, 4, 5)));
    assert_eq!(triangle_corners(&geometry(0, 9), &indices, 2), None);
    assert_eq!(triangle_corners(&geometry(20, 3), &indices, 0), None);
    assert_eq!(triangle_corners(&geometry(16, 3), &indices, 0), Some((4, 5, 6)));
    assert_eq!(triangle_corners(&geometry(u64::MAX, u64::MAX), &indices, 0), None);
    assert_eq!(triangle_corners(&geometry(0, 2), &indices, 0), None);
    assert_eq!(triangle_corners(&geometry(0, 3), &Vec::new(), 0), None);
}

#[test]
fn the_colour_comes_from_texture_then_vertices_then_factor() {
    let mut g = geometry(0, 3);
    assert_eq!(color_source(&g, &material(1)), ColorSource::Untouched);
    g.has_color = 1;
    assert_eq!(color_source(&g, &material(1)), ColorSource::Untouched);
    g.has_tex_coord = 1;
    assert_eq!(
        color_source(&g, &material(1)),
        ColorSource::Texture { sampler_index: 3, image_index: 4 }
    );
    assert_eq!(color_source(&g, &material(0)), ColorSource::VertexColor);
    g.has_color = 0;
    assert_eq!(color_source(&g, &material(0)), ColorSource::BaseColor);
    assert_eq!(color_source(&g, &material(2)), ColorSource::BaseColor);
}

fn reference(state: u32) -> (u32, u32) {
    let next = state.wrapping_mul(747796405).wrapping_add(1);
    let word = ((next >> ((next >> 28) + 4)) ^ next).wrapping_mul(277803737);
    (next, (word >> 22) ^ word)
}

#[test]
fn the_generator_steps_by_its_congruence() {
    let mut state = 0u32;
    let word = rng(&mut state);
    assert_eq!(state, 1);
    assert_eq!(word, 277803737 ^ (277803737 >> 22));
    let mut state = 1u32;
    rng(&mut state);
    assert_eq!(state, 747796406);
}

#[test]
fn the_generator_agrees_with_wrapping_arithmetic() {
    for seed in [0u32, 1, 2, 12345, 0x8000_0000, 0xDEAD_BEEF, u32::MAX] {
        let mut state = seed;
        for _ in 0..50 {
            let (next, expected) = reference(state);
            let word = rng(&mut state);
            assert_eq!(state, next);
            assert_eq!(word, expected);
        }
    }
}

#[test]
fn the_device_reads_back_what_the_mirror_uploaded() {
    let primitive = |seed: u64| po_renderer::scene::PrimitiveInfo {
        index_offset: seed,
        vertex_offset: seed * 2,
        index_count: 3,
        vertex_count: 3,
        material_index: seed % 2,
        color_offset: if seed % 2 == 0 { Some(seed * 16) } else { None },
        tex_coord_offset: None,
    };
    let meshes: Vec<Vec<u64>> = vec![vec![1, 2], vec![], vec![3, 4, 5]];
    let scene = po_renderer::scene::Scene {
        identity: 1,
        tlas: 0,
        index_buffer: po_renderer::scene::BufferView { buffer: 0, offset: 0 },
        vertex_buffer: po_renderer::scene::BufferView { buffer: 0, offset: 0 },
        transform_buffer: po_renderer::scene::BufferView { buffer: 0, offset: 0 },
        mesh_infos: meshes
            .iter()
            .map(|m| po_renderer::scene::MeshInfo {
                primitive_infos: m.iter().map(|s| primitive(*s)).collect(),
            })
            .collect(),
        material_infos: Vec::new(),
        image_count: 0,
        sampler_count: 0,
        color_buffer: None,
        tex_coord_buffer: None,
        instances: Vec::new(),
    };
    let mut mirror = po_renderer::mirror::SceneGpuMirror::new(500);
    mirror.sync(&scene).unwrap();
    let buffer = mirror.buffer_bytes(po_renderer::descriptor::MirrorBuffer::GeometryInfos);
    let offsets = mirror.geometry_info_offsets();
    for (i, m) in meshes.iter().enumerate() {
        for (j, seed) in m.iter().enumerate() {
            let expected = GeometryInfo::from_primitive(&primitive(*seed));
            assert_eq!(po_renderer::shading::fetch_geometry(buffer, offsets, i, j), Some(expected));
        }
        assert_eq!(po_renderer::shading::fetch_geometry(buffer, offsets, i, m.len()), None);
    }
    assert_eq!(po_renderer::shading::fetch_geometry(buffer, offsets, 3, 0), None);
    let short = buffer[..buffer.len() - 1].to_vec();
    assert_eq!(po_renderer::shading::fetch_geometry(&short, offsets, 2, 2), None);
    assert!(po_renderer::shading::fetch_geometry(&short, offsets, 2, 1).is_some());
}

#[test]
fn the_attributes_of_a_vertex_stand_behind_their_offsets() {
    let mut g = geometry(0, 3);
    g.vertex_offset = 40;
    g.color_offset = 64;
    g.tex_coord_offset = 24;
    assert_eq!(vertex_slots(&g, 0), VertexSlots { position: 10, color: 4, tex_coord: 3 });
    assert_eq!(vertex_slots(&g, 5), VertexSlots { position: 25, color: 9, tex_coord: 8 });
    g.vertex_offset = u64::MAX;
    g.color_offset = u64::MAX;
    g.tex_coord_offset = u64::MAX;
    assert_eq!(
        vertex_slots(&g, u32::MAX),
        VertexSlots {
            position: u64::MAX / 4 + 3 * (u32::MAX as u64),
            color: u64::MAX / 16 + u32::MAX as u64,
            tex_coord: u64::MAX / 8 + u32::MAX as u64,
        }
    );
}
