use raytracer_core::fbits::{BITS_ZERO, BITS_ONE};
use raytracer_core::materials::Material;
use raytracer_core::objects::{Mesh, RayTracingMesh, Sphere, get_null_sphere, get_null_mesh};
use raytracer_core::scene::{build_sphere_buffer, build_mesh_buffer, transform_meshes};
use raytracer_core::vector::{Vector3, Vector4};

fn v3(x: f32, y: f32, z: f32) -> Vector3 {
    Vector3 { x: x.to_bits(), y: y.to_bits(), z: z.to_bits() }
}

fn as_f32s(v: Vector3) -> (f32, f32, f32) {
    (f32::from_bits(v.x), f32::from_bits(v.y), f32::from_bits(v.z))
}

fn grey() -> raytracer_core::materials::RayTracingMaterial {
    Material::Lambertian { colour: v3(0.5, 0.5, 0.5) }.to_record()
}

#[test]
fn empty_sphere_list_yields_one_sentinel_and_count_zero() {
    let (buf, count) = build_sphere_buffer(&Vec::new());
    assert_eq!(count, 0);
    assert_eq!(buf.len(), 1);
    assert_eq!(buf[0].radius, BITS_ZERO);
    assert_eq!(buf[0].centre, Vector3 { x: BITS_ZERO, y: BITS_ZERO, z: BITS_ZERO });
    // neutral material: diffuse white, non-emissive
    assert_eq!(buf[0].material.colour, Vector4 { x: BITS_ONE, y: BITS_ONE, z: BITS_ONE, w: 0 });
    assert_eq!(buf[0].material.emission, Vector4 { x: 0, y: 0, z: 0, w: 0 });
    assert_eq!(buf[0].material.settings, Vector4 { x: BITS_ONE, y: 0, z: 0, w: 0 });
}

#[test]
fn empty_mesh_list_yields_one_sentinel_and_count_zero() {
    let (tris, descs, count) = build_mesh_buffer(&Vec::new());
    assert_eq!(count, 0);
    assert_eq!(tris.len(), 1);
    assert_eq!(descs.len(), 1);
    assert_eq!(descs[0].first_index, 0);
    assert_eq!(descs[0].len, 1);
    // the sentinel triangle is degenerate: all corners at the origin
    assert_eq!(tris[0].a, Vector4 { x: 0, y: 0, z: 0, w: 0 });
}

#[test]
fn sphere_buffer_keeps_order_and_count() {
    let spheres = vec![
        Sphere { centre: v3(1.0, 2.0, 3.0), radius: 4.0f32.to_bits(), material: grey() },
        Sphere { centre: v3(-1.0, 0.5, 0.0), radius: 0.25f32.to_bits(), material: grey() },
    ];
    let (buf, count) = build_sphere_buffer(&spheres);
    assert_eq!(count, 2);
    assert_eq!(buf.len(), 2);
    assert_eq!(buf[0].centre, v3(1.0, 2.0, 3.0));
    assert_eq!(buf[0].radius, 4.0f32.to_bits());
    assert_eq!(buf[1].centre, v3(-1.0, 0.5, 0.0));
}

#[test]
fn null_helpers_are_neutral() {
    let s = get_null_sphere();
    assert_eq!(s.radius, BITS_ZERO);
    let m = get_null_mesh();
    assert_eq!(m.mesh.indices, vec![0, 0, 0]);
    assert_eq!(m.mesh.vertices.len(), 1);
}

#[test]
fn single_triangle_bounding_box_is_exact_min_max() {
    let vertices = vec![v3(1.0, -2.0, 0.5), v3(-3.0, 4.0, 0.25), v3(2.0, 0.0, -7.0)];
    let indices = vec![0u32, 1, 2];
    let mesh = RayTracingMesh { mesh: Mesh::new(vertices, indices), material: grey() };
    let (tris, descs, count) = build_mesh_buffer(&vec![mesh]);
    assert_eq!(count, 1);
    assert_eq!(tris.len(), 1);
    assert_eq!(descs.len(), 1);
    assert_eq!(as_f32s(descs[0].min_point), (-3.0, -2.0, -7.0));
    assert_eq!(as_f32s(descs[0].max_point), (2.0, 4.0, 0.5));
}

#[test]
fn triangle_edges_and_normal_match_single_precision_reference() {
    let a = (1.0f32, 2.0f32, 3.0f32);
    let b = (4.5f32, -1.0f32, 0.125f32);
    let c = (-2.25f32, 7.0f32, 5.5f32);
    let vertices = vec![v3(a.0, a.1, a.2), v3(b.0, b.1, b.2), v3(c.0, c.1, c.2)];
    let mesh = RayTracingMesh { mesh: Mesh::new(vertices, vec![0u32, 1, 2]), material: grey() };
    let (tris, descs) = transform_meshes(&vec![mesh]);
    assert_eq!(tris.len(), 1);
    assert_eq!(descs[0].first_index, 0);
    assert_eq!(descs[0].len, 1);

    let e1 = (b.0 - a.0, b.1 - a.1, b.2 - a.2);
    let e2 = (c.0 - a.0, c.1 - a.1, c.2 - a.2);
    let norm = (
        e1.1 * e2.2 - e1.2 * e2.1,
        e1.2 * e2.0 - e1.0 * e2.2,
        e1.0 * e2.1 - e1.1 * e2.0,
    );
    let t = &tris[0];
    assert_eq!(t.a, Vector4 { x: a.0.to_bits(), y: a.1.to_bits(), z: a.2.to_bits(), w: 0 });
    assert_eq!(
        t.edge_one,
        Vector4 { x: e1.0.to_bits(), y: e1.1.to_bits(), z: e1.2.to_bits(), w: 0 }
    );
    assert_eq!(
        t.edge_two,
        Vector4 { x: e2.0.to_bits(), y: e2.1.to_bits(), z: e2.2.to_bits(), w: 0 }
    );
    assert_eq!(
        t.normal,
        Vector4 { x: norm.0.to_bits(), y: norm.1.to_bits(), z: norm.2.to_bits(), w: 0 }
    );
}

#[test]
fn two_meshes_flatten_with_prefix_offsets() {
    let quad_vertices = vec![
        v3(0.0, 0.0, 0.0),
        v3(1.0, 0.0, 0.0),
        v3(1.0, 1.0, 0.0),
        v3(0.0, 1.0, 0.0),
    ];
    let quad = RayTracingMesh {
        mesh: Mesh::new(quad_vertices, vec![0u32, 1, 2, 0, 2, 3]),
        material: grey(),
    };
    let tri = RayTracingMesh {
        mesh: Mesh::new(vec![v3(5.0, 5.0, 5.0), v3(6.0, 5.0, 5.0), v3(5.0, 6.0, 5.0)], vec![
            0u32, 1, 2,
        ]),
        material: grey(),
    };
    let (tris, descs, count) = build_mesh_buffer(&vec![quad, tri]);
    assert_eq!(count, 2);
    assert_eq!(tris.len(), 3);
    assert_eq!(descs.len(), 2);
    assert_eq!((descs[0].first_index, descs[0].len), (0, 2));
    assert_eq!((descs[1].first_index, descs[1].len), (2, 1));
    // the two-triangle quad's box spans all four corners
    assert_eq!(as_f32s(descs[0].min_point), (0.0, 0.0, 0.0));
    assert_eq!(as_f32s(descs[0].max_point), (1.0, 1.0, 0.0));
    assert_eq!(as_f32s(descs[1].min_point), (5.0, 5.0, 5.0));
    assert_eq!(as_f32s(descs[1].max_point), (6.0, 6.0, 5.0));
}
