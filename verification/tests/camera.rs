use glam::{Mat4, Vec3};
use po_renderer::camera::{
    CameraInfo, CameraMatrices, CameraPushConstant, RenderSettings, Transform, CAMERA_INFO_SIZE,
    FRAC_PI_3, PINHOLE_SIZE, SIXTEEN_NINTHS, TEN, TRANSFORM_SIZE,
};

fn bits(m: &Mat4) -> [u32; 16] {
    let cols = m.to_cols_array();
    let mut out = [0u32; 16];
    for i in 0..16 {
        out[i] = cols[i].to_bits();
    }
    out
}

fn matrix_at(bytes: &[u8], at: usize) -> Mat4 {
    let mut cols = [0f32; 16];
    for i in 0..16 {
        let mut word = [0u8; 4];
        word.copy_from_slice(&bytes[at + 4 * i..at + 4 * i + 4]);
        cols[i] = f32::from_le_bytes(word);
    }
    Mat4::from_cols_array(&cols)
}

fn assert_identity(m: Mat4) {
    let cols = m.to_cols_array();
    for i in 0..16 {
        let expected = if i % 5 == 0 { 1.0 } else { 0.0 };
        assert!((cols[i] - expected).abs() <= 1e-5, "element {} is {}", i, cols[i]);
    }
}

fn camera() -> (Mat4, Mat4, CameraMatrices) {
    let location = Vec3::new(0.0, 0.0, 10.0);
    let look_at = Vec3::new(0.0, 0.0, 0.0);
    let view = Mat4::look_at_lh(location, look_at, Vec3::new(0.0, 1.0, 0.0));
    let projection =
        Mat4::perspective_lh(std::f32::consts::FRAC_PI_3, 16.0 / 9.0, 0.001, 10000.0);
    let matrices = CameraMatrices {
        view: bits(&view),
        projection: bits(&projection),
        view_inverse: bits(&view.inverse()),
        projection_inverse: bits(&projection.inverse()),
    };
    (view, projection, matrices)
}

#[test]
fn the_pushed_inverses_undo_view_and_projection() {
    let (view, projection, matrices) = camera();
    let bytes = CameraInfo::from_camera(&matrices).encode();
    assert_eq!(bytes.len(), 128);
    let view_inverse = matrix_at(&bytes, 0);
    let projection_inverse = matrix_at(&bytes, 64);
    assert_identity(view * view_inverse);
    assert_identity(projection * projection_inverse);
}

#[test]
fn the_camera_payload_is_the_two_inverses_in_order() {
    let (_, _, matrices) = camera();
    let info = CameraInfo::from_camera(&matrices);
    assert_eq!(info.view_inv, matrices.view_inverse);
    assert_eq!(info.proj_inv, matrices.projection_inverse);
    let bytes = info.encode();
    assert_eq!(bytes.len() as u32, CAMERA_INFO_SIZE);
    let mut expected = Vec::new();
    for x in matrices.view_inverse.iter().chain(matrices.projection_inverse.iter()) {
        expected.extend_from_slice(&x.to_le_bytes());
    }
    assert_eq!(bytes, expected);
    assert_eq!(bytes, bytemuck::cast_slice::<u32, u8>(&[info.view_inv, info.proj_inv].concat()));
}

#[test]
fn the_transform_payload_is_model_view_projection() {
    let (_, _, matrices) = camera();
    let model = bits(&Mat4::IDENTITY);
    let t = Transform::new(model, &matrices);
    assert_eq!(t.model, model);
    assert_eq!(t.view, matrices.view);
    assert_eq!(t.projection, matrices.projection);
    let bytes = t.encode();
    assert_eq!(bytes.len() as u32, TRANSFORM_SIZE);
    assert_eq!(bytes.len(), 192);
    assert_eq!(matrix_at(&bytes, 0), Mat4::IDENTITY);
    assert_eq!(bits(&matrix_at(&bytes, 64)), matrices.view);
    assert_eq!(bits(&matrix_at(&bytes, 128)), matrices.projection);
}

#[test]
fn the_pinhole_payload_has_twenty_eight_bytes() {
    let p = CameraPushConstant::Pinhole {
        origin: [1, 2, 3],
        direction: [4, 5, 6],
        vertical_fov: 0x0102_0304,
    };
    let bytes = p.encode();
    assert_eq!(bytes.len() as u32, PINHOLE_SIZE);
    assert_eq!(
        bytes,
        vec![
            1u8, 0, 0, 0, 2, 0, 0, 0, 3, 0, 0, 0, 4, 0, 0, 0, 5, 0, 0, 0, 6, 0, 0, 0, 4, 3, 2, 1
        ]
    );
}

#[test]
fn the_matrix_shape_encodes_as_the_camera_payload() {
    let (_, _, matrices) = camera();
    let info = CameraInfo::from_camera(&matrices);
    assert_eq!(CameraPushConstant::Matrices(info).encode(), info.encode());
}

#[test]
fn the_default_settings_are_full_hd_from_ten_units_away() {
    let s = RenderSettings::default();
    assert_eq!(s.width, 1920);
    assert_eq!(s.height, 1080);
    assert_eq!(s.max_bounce, 5);
    assert_eq!(s.camera_location.map(f32::from_bits), [0.0, 0.0, 10.0]);
    assert_eq!(s.camera_look_at.map(f32::from_bits), [0.0, 0.0, 0.0]);
    assert_eq!(f32::from_bits(s.camera_aspect_ratio), 16.0 / 9.0);
    assert_eq!(f32::from_bits(s.camera_fov), std::f32::consts::FRAC_PI_3);
}

#[test]
fn the_named_bit_patterns_are_the_numbers_they_name() {
    assert_eq!(TEN, 10.0f32.to_bits());
    assert_eq!(SIXTEEN_NINTHS, (16.0f32 / 9.0f32).to_bits());
    assert_eq!(FRAC_PI_3, std::f32::consts::FRAC_PI_3.to_bits());
}
