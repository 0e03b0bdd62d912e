use raytracer_core::camera::{Camera, compute_alignment};
use raytracer_core::vector::{Vector3, Vector4};

fn v3(x: f32, y: f32, z: f32) -> Vector3 {
    Vector3 { x: x.to_bits(), y: y.to_bits(), z: z.to_bits() }
}

fn row(v: Vector4) -> [f32; 3] {
    [f32::from_bits(v.x), f32::from_bits(v.y), f32::from_bits(v.z)]
}

fn dot(a: [f32; 3], b: [f32; 3]) -> f32 {
    a[0] * b[0] + a[1] * b[1] + a[2] * b[2]
}

fn assert_orthonormal(direction: Vector3, up: Vector3) {
    let camera = Camera::new(None, Some(direction), Some(up), None);
    let m = compute_alignment(&camera);
    let rows = [row(m.x), row(m.y), row(m.z)];
    let eps = 1e-5f32;
    for i in 0..3 {
        assert!((dot(rows[i], rows[i]) - 1.0).abs() < eps, "row {i} not unit length");
        for j in (i + 1)..3 {
            assert!(dot(rows[i], rows[j]).abs() < eps, "rows {i} and {j} not perpendicular");
        }
    }
    // homogeneous row untouched
    assert_eq!(row(m.w), [0.0, 0.0, 0.0]);
    assert_eq!(f32::from_bits(m.w.w), 1.0);
}

#[test]
fn alignment_is_orthonormal_for_varied_poses() {
    assert_orthonormal(v3(1.0, 0.0, 0.0), v3(0.0, 1.0, 0.0));
    assert_orthonormal(v3(0.0, 0.0, -1.0), v3(0.0, 1.0, 0.0));
    assert_orthonormal(v3(1.0, 2.0, 3.0), v3(0.0, 1.0, 0.0));
    assert_orthonormal(v3(-0.3, 0.9, 0.1), v3(0.2, 0.1, 0.97));
    assert_orthonormal(v3(5.0, -4.0, 2.5), v3(-1.0, 2.0, 2.0));
    assert_orthonormal(v3(0.577, 0.577, 0.577), v3(0.0, 0.0, 1.0));
}

#[test]
fn alignment_of_canonical_camera_is_signed_identity() {
    // looking along +X with +Y up: X row is the forward axis itself
    let camera = Camera::new(None, None, None, None);
    let m = compute_alignment(&camera);
    assert_eq!(row(m.x), [1.0, 0.0, 0.0]);
    // Z = -(dir x up) = -(x cross y) = -z, and Y = -(X x Z) = -(x cross -z) = -y
    assert_eq!(row(m.y), [0.0, -1.0, 0.0]);
    assert_eq!(row(m.z), [0.0, 0.0, -1.0]);
}

#[test]
fn default_camera_parts() {
    let c = Camera::new(None, None, None, None);
    assert_eq!(c.position, v3(0.0, 0.0, 0.0));
    assert_eq!(c.direction, v3(1.0, 0.0, 0.0));
    assert_eq!(c.up, v3(0.0, 1.0, 0.0));
    assert_eq!(c.velocity, v3(0.0, 0.0, 0.0));
    let d = Camera::new(Some(v3(9.0, 8.0, 7.0)), None, None, Some(v3(1.0, 1.0, 1.0)));
    assert_eq!(d.position, v3(9.0, 8.0, 7.0));
    assert_eq!(d.velocity, v3(1.0, 1.0, 1.0));
}

#[test]
fn do_move_integrates_velocity_over_frame_time() {
    let mut c = Camera::new(
        Some(v3(1.0, 2.0, 3.0)),
        None,
        None,
        Some(v3(10.0, -20.0, 0.5)),
    );
    c.do_move(0.25f32.to_bits());
    assert_eq!(
        c.position,
        v3(1.0 + 10.0 * 0.25, 2.0 + -20.0 * 0.25, 3.0 + 0.5 * 0.25)
    );
    // pose itself is unchanged by movement integration
    assert_eq!(c.direction, v3(1.0, 0.0, 0.0));
}
