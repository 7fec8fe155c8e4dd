use nalgebra_glm as glm;
use shader_pipeline::quad;

// The library routes the transform scalars to the backend as f32 bit
// patterns; these tests pin the constants to the float values the demo
// uses, and check the projection identity of the matrix a backend
// computes from them.

#[test]
fn demo_constants_are_the_demo_floats() {
    let fov = 45.0f32 * std::f32::consts::PI / 180.0;
    assert_eq!(quad::FOV_45_DEG_BITS, fov.to_bits());
    assert_eq!(quad::Z_NEAR_BITS, 0.1f32.to_bits());
    assert_eq!(quad::Z_FAR_BITS, 100.0f32.to_bits());
    assert_eq!(quad::CAMERA_Z_BITS, (-6.0f32).to_bits());
    assert_eq!(quad::F32_ONE_BITS, 1.0f32.to_bits());
    assert_eq!(quad::F32_NEG_ONE_BITS, (-1.0f32).to_bits());
    assert_eq!(quad::F32_ZERO_BITS, 0.0f32.to_bits());
    assert_eq!(quad::F32_NEG_ZERO_BITS, (-0.0f32).to_bits());
}

#[test]
fn quad_data_is_the_demo_floats() {
    let positions = quad::quad_positions();
    let expected_positions: Vec<u32> =
        [-1.0f32, 1.0, 1.0, 1.0, -1.0, -1.0, 1.0, -1.0].iter().map(|v| v.to_bits()).collect();
    assert_eq!(positions, expected_positions);
    let colors = quad::quad_colors();
    let expected_colors: Vec<u32> = [
        1.0f32, 1.0, 1.0, 1.0, // white
        1.0, 0.0, 0.0, 1.0, // red
        0.0, 1.0, 0.0, 1.0, // green
        0.0, 0.0, 1.0, 1.0, // blue
    ]
    .iter()
    .map(|v| v.to_bits())
    .collect();
    assert_eq!(colors, expected_colors);
}

#[test]
fn projection_matrix_focal_identity() {
    // fov = 45 degrees, aspect = 1, zNear = 0.1, zFar = 100
    let transform = quad::demo_transform(1.0f32.to_bits());
    let fov = f32::from_bits(transform.fov_y_bits);
    let aspect = f32::from_bits(transform.aspect_bits);
    let z_near = f32::from_bits(transform.z_near_bits);
    let z_far = f32::from_bits(transform.z_far_bits);
    let projection = glm::perspective(aspect, fov, z_near, z_far);
    let expected = 1.0f64 / (fov as f64 / 2.0).tan();
    let got = projection[(1, 1)] as f64;
    assert!((got - expected).abs() < 1e-6, "m[1][1] = {}, expected {}", got, expected);
}

#[test]
fn model_view_is_identity_translated() {
    let transform = quad::demo_transform(1.0f32.to_bits());
    let offset = glm::vec3(
        f32::from_bits(transform.offset_x_bits),
        f32::from_bits(transform.offset_y_bits),
        f32::from_bits(transform.offset_z_bits),
    );
    let model_view = glm::translate(&glm::Mat4::identity(), &offset);
    // column-major flattening, as the backend receives it
    let flat: Vec<f32> = model_view.iter().copied().collect();
    assert_eq!(flat.len(), 16);
    // last column holds the translation
    assert_eq!(flat[12], -0.0);
    assert_eq!(flat[13], 0.0);
    assert_eq!(flat[14], -6.0);
    assert_eq!(flat[15], 1.0);
    // the rest is the identity
    let expected: Vec<f32> = vec![
        1.0, 0.0, 0.0, 0.0, //
        0.0, 1.0, 0.0, 0.0, //
        0.0, 0.0, 1.0, 0.0, //
    ];
    assert_eq!(&flat[..12], &expected[..]);
}
