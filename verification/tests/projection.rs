use cgmath::{perspective, Deg, Matrix4, Vector4};
use cockpit::projection::{clip_correction_doubled, Projection};

/// The clip correction as a matrix of single-precision numbers.
fn clip_correction() -> Matrix4<f32> {
    Matrix4::from(clip_correction_doubled().map(|column| column.map(|entry| f32::from(entry) / 2.0)))
}

fn matrix_of(projection: &Projection<f32>) -> Matrix4<f32> {
    let aspect = projection.width() as f32 / projection.height() as f32;
    clip_correction()
        * perspective(Deg(*projection.fovy()), aspect, *projection.znear(), *projection.zfar())
}

#[test]
fn projection_near_far() {
    let projection = Projection::new(1, 1, 45.0_f32, 0.1_f32, 100.0_f32);
    let matrix = matrix_of(&projection);
    let near = matrix * Vector4::new(0.0, 0.0, -0.1, 1.0);
    assert!(near.z.abs() < 1e-6);
    assert!((near.w - 0.1).abs() < 1e-6);
    let far = matrix * Vector4::new(0.0, 0.0, -100.0, 1.0);
    assert!((far.z - far.w).abs() < 1e-3);
    assert!((far.w - 100.0).abs() < 1e-3);
}

#[test]
fn resize_changes_the_aspect_of_the_matrix() {
    let mut projection = Projection::new(100, 100, 45.0_f32, 0.1_f32, 100.0_f32);
    let square = matrix_of(&projection);
    projection.resize(200, 100);
    let wide = matrix_of(&projection);
    assert!((wide.x.x * 2.0 - square.x.x).abs() < 1e-6);
    assert_eq!(wide.y.y, square.y.y);
    assert_eq!(wide.z, square.z);
    assert_eq!(wide.w, square.w);
}

#[test]
fn clip_correction_entries() {
    assert_eq!(
        clip_correction_doubled(),
        [[2, 0, 0, 0], [0, 2, 0, 0], [0, 0, 1, 0], [0, 0, 1, 2]]
    );
}

#[test]
fn clip_correction_maps_depth_to_zero_and_w() {
    let correction = clip_correction();
    for w in [0.1_f32, 1.0, 7.5, 100.0] {
        let near = correction * Vector4::new(3.0, -4.0, -w, w);
        assert_eq!((near.x, near.y, near.z, near.w), (3.0, -4.0, 0.0, w));
        let far = correction * Vector4::new(3.0, -4.0, w, w);
        assert_eq!((far.x, far.y, far.z, far.w), (3.0, -4.0, w, w));
        let middle = correction * Vector4::new(0.0, 0.0, 0.0, w);
        assert_eq!(middle.z, w / 2.0);
    }
}
