use po_renderer::records::{
    encode_geometry_infos, encode_material_infos, GeometryInfo, MaterialInfo, ShaderRecordData,
    GEOMETRY_INFO_SIZE, MATERIAL_INFO_SIZE,
};
use po_renderer::scene::PrimitiveInfo;

fn sample() -> GeometryInfo {
    GeometryInfo {
        index_offset: 0x0102_0304_0506_0708,
        vertex_offset: 2,
        index_count: 3,
        vertex_count: 4,
        material_index: 5,
        color_offset: 6,
        tex_coord_offset: 7,
        has_color: 1,
        has_tex_coord: 0x0A0B_0C0D,
    }
}

#[test]
fn a_geometry_record_has_sixty_four_bytes_in_field_order() {
    let mut out = Vec::new();
    sample().encode_into(&mut out);
    assert_eq!(out.len(), GEOMETRY_INFO_SIZE);
    assert_eq!(GEOMETRY_INFO_SIZE, 64);
    assert_eq!(&out[0..8], &[8u8, 7, 6, 5, 4, 3, 2, 1]);
    assert_eq!(&out[8..16], &[2u8, 0, 0, 0, 0, 0, 0, 0]);
    assert_eq!(&out[16..24], &[3u8, 0, 0, 0, 0, 0, 0, 0]);
    assert_eq!(&out[24..32], &[4u8, 0, 0, 0, 0, 0, 0, 0]);
    assert_eq!(&out[32..40], &[5u8, 0, 0, 0, 0, 0, 0, 0]);
    assert_eq!(&out[40..48], &[6u8, 0, 0, 0, 0, 0, 0, 0]);
    assert_eq!(&out[48..56], &[7u8, 0, 0, 0, 0, 0, 0, 0]);
    assert_eq!(&out[56..60], &[1u8, 0, 0, 0]);
    assert_eq!(&out[60..64], &[0x0Du8, 0x0C, 0x0B, 0x0A]);
}

#[test]
fn a_geometry_record_reads_back_as_written() {
    let mut out = vec![0xEEu8; 5];
    sample().encode_into(&mut out);
    out.extend_from_slice(&[0xFF; 3]);
    assert_eq!(GeometryInfo::decode(&out, 5), sample());
}

#[test]
fn the_nth_record_of_a_buffer_sits_at_sixty_four_times_n() {
    let mut records = Vec::new();
    for i in 0..5u64 {
        let mut r = sample();
        r.material_index = i;
        r.index_offset = i * 1000;
        records.push(r);
    }
    let bytes = encode_geometry_infos(&records);
    assert_eq!(bytes.len(), 5 * 64);
    for (i, r) in records.iter().enumerate() {
        assert_eq!(GeometryInfo::decode(&bytes, 64 * i), *r);
    }
}

#[test]
fn an_absent_offset_is_zero_with_its_flag_cleared() {
    let g = GeometryInfo::from_primitive(&PrimitiveInfo {
        index_offset: 1,
        vertex_offset: 2,
        index_count: 3,
        vertex_count: 4,
        material_index: 5,
        color_offset: None,
        tex_coord_offset: Some(48),
    });
    assert_eq!(
        g,
        GeometryInfo {
            index_offset: 1,
            vertex_offset: 2,
            index_count: 3,
            vertex_count: 4,
            material_index: 5,
            color_offset: 0,
            tex_coord_offset: 48,
            has_color: 0,
            has_tex_coord: 1,
        }
    );
}

#[test]
fn a_present_zero_offset_keeps_its_flag() {
    let g = GeometryInfo::from_primitive(&PrimitiveInfo {
        index_offset: 0,
        vertex_offset: 0,
        index_count: 0,
        vertex_count: 0,
        material_index: 0,
        color_offset: Some(0),
        tex_coord_offset: None,
    });
    assert_eq!(g.color_offset, 0);
    assert_eq!(g.has_color, 1);
    assert_eq!(g.has_tex_coord, 0);
}

#[test]
fn a_material_record_has_forty_eight_bytes_in_field_order() {
    let m = MaterialInfo {
        base_color_factor: [0x3F80_0000, 0x3F00_0000, 0, 0x3F80_0000],
        has_base_color_texture: 1,
        base_color_sampler_index: 2,
        base_color_image_index: 3,
        has_metallic_roughness_texture: 4,
        metallic_roughness_sampler_index: 5,
        metallic_roughness_image_index: 6,
        padding: 0,
    };
    let mut out = Vec::new();
    m.encode_into(&mut out);
    assert_eq!(out.len(), MATERIAL_INFO_SIZE);
    assert_eq!(MATERIAL_INFO_SIZE, 48);
    assert_eq!(&out[0..4], &1.0f32.to_le_bytes());
    assert_eq!(&out[4..8], &0.5f32.to_le_bytes());
    assert_eq!(&out[8..12], &0.0f32.to_le_bytes());
    assert_eq!(&out[12..16], &1.0f32.to_le_bytes());
    assert_eq!(&out[16..20], &[1u8, 0, 0, 0]);
    assert_eq!(&out[20..24], &[2u8, 0, 0, 0]);
    assert_eq!(&out[24..28], &[3u8, 0, 0, 0]);
    assert_eq!(&out[28..32], &[4u8, 0, 0, 0]);
    assert_eq!(&out[32..36], &[5u8, 0, 0, 0]);
    assert_eq!(&out[36..40], &[6u8, 0, 0, 0]);
    assert_eq!(&out[40..48], &[0u8; 8]);
    assert_eq!(encode_material_infos(&vec![m, m]).len(), 96);
}

#[test]
fn a_shader_record_has_eight_bytes() {
    let mut out = Vec::new();
    ShaderRecordData { index_offset: 0x0100, vertex_offset: 7 }.encode_into(&mut out);
    assert_eq!(out, vec![0u8, 1, 0, 0, 7, 0, 0, 0]);
}

#[test]
fn a_material_record_reads_back_as_written() {
    let m = MaterialInfo {
        base_color_factor: [0x3F80_0000, 0xBF00_0000, 7, u32::MAX],
        has_base_color_texture: 1,
        base_color_sampler_index: 20,
        base_color_image_index: 300,
        has_metallic_roughness_texture: 0,
        metallic_roughness_sampler_index: 4000,
        metallic_roughness_image_index: 50000,
        padding: 0x0102_0304_0506_0708,
    };
    let other = MaterialInfo { base_color_image_index: 1, ..m };
    let bytes = encode_material_infos(&vec![other, m, other]);
    assert_eq!(MaterialInfo::decode(&bytes, 0), other);
    assert_eq!(MaterialInfo::decode(&bytes, 48), m);
    assert_eq!(MaterialInfo::decode(&bytes, 96), other);
}

#[test]
fn the_encodings_are_those_of_the_machine() {
    let offsets = vec![0u32, 1, 0x0102_0304, u32::MAX];
    assert_eq!(
        po_renderer::wire::encode_u32_slice(&offsets),
        bytemuck::cast_slice::<u32, u8>(&offsets).to_vec()
    );
    let g = sample();
    let words = [
        g.index_offset,
        g.vertex_offset,
        g.index_count,
        g.vertex_count,
        g.material_index,
        g.color_offset,
        g.tex_coord_offset,
        (g.has_color as u64) | ((g.has_tex_coord as u64) << 32),
    ];
    assert_eq!(encode_geometry_infos(&vec![g]), bytemuck::cast_slice::<u64, u8>(&words).to_vec());
}
