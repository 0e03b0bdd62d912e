//! Scene building: converting authoring-level spheres and meshes into the
//! flat, never-empty buffer layouts the trace kernel reads.

use vstd::prelude::*;
use vstd::arithmetic::div_mod::lemma_fundamental_div_mod;
use crate::fbits::{BITS_GREATEST, BITS_LEAST, BITS_ZERO, finite_bits};
use crate::materials::RayTracingMaterial;
use crate::objects::{Sphere, RayTracingMesh, get_null_sphere, get_null_mesh, spec_null_material};
use crate::vector::{
    Vector3, Vector4, spec_vec3_sub, spec_vec3_cross, spec_vec3_extend, spec_vec3_min,
    spec_vec3_max, spec_vec3_le,
};

verus! {

/// The wire record of one sphere.
#[derive(Clone, Copy, Debug, PartialEq, Eq, Structural)]
pub struct GpuSphere {
    pub centre: Vector3,
    pub radius: u32,
    pub material: RayTracingMaterial,
}

/// The wire record of one triangle: a corner, the two edge vectors out of
/// it, and the unnormalised face normal, all precomputed once at upload.
#[derive(Clone, Copy, Debug, PartialEq, Eq, Structural)]
pub struct GpuTriangle {
    pub a: Vector4,
    pub edge_one: Vector4,
    pub edge_two: Vector4,
    pub normal: Vector4,
}

/// The wire record of one mesh: where its triangles sit in the global
/// triangle buffer, its material, and its axis-aligned bounding box.
#[derive(Clone, Copy, Debug, PartialEq, Eq, Structural)]
pub struct GpuMeshDescriptor {
    pub first_index: u32,
    pub len: u32,
    pub material: RayTracingMaterial,
    pub min_point: Vector3,
    pub max_point: Vector3,
}

pub open spec fn spec_gpu_sphere(s: Sphere) -> GpuSphere {
    GpuSphere { centre: s.centre, radius: s.radius, material: s.material }
}

impl Sphere {
    /// The sphere as its wire record.
    pub fn to_gpu(&self) -> (r: GpuSphere)
        ensures
            r == spec_gpu_sphere(*self),
    {
        GpuSphere { centre: self.centre, radius: self.radius, material: self.material }
    }
}

/// Triangle `k` of the mesh data: corner `a` from the first index, edges
/// to the other two corners, and their cross product as face normal.
pub open spec fn spec_triangle_at(vs: Seq<Vector3>, is: Seq<u32>, k: int) -> GpuTriangle {
    let a = vs[is[3 * k] as int];
    let b = vs[is[3 * k + 1] as int];
    let c = vs[is[3 * k + 2] as int];
    let edge_one = spec_vec3_sub(b, a);
    let edge_two = spec_vec3_sub(c, a);
    GpuTriangle {
        a: spec_vec3_extend(a),
        edge_one: spec_vec3_extend(edge_one),
        edge_two: spec_vec3_extend(edge_two),
        normal: spec_vec3_extend(spec_vec3_cross(edge_one, edge_two)),
    }
}

/// All triangles of the mesh data, in index order.
pub open spec fn spec_triangle_seq(vs: Seq<Vector3>, is: Seq<u32>) -> Seq<GpuTriangle> {
    Seq::new((is.len() as int / 3) as nat, |k: int| spec_triangle_at(vs, is, k))
}

/// Componentwise minimum of triangle `k`'s three corners.
pub open spec fn spec_tri_min(vs: Seq<Vector3>, is: Seq<u32>, k: int) -> Vector3 {
    let a = vs[is[3 * k] as int];
    let b = vs[is[3 * k + 1] as int];
    let c = vs[is[3 * k + 2] as int];
    spec_vec3_min(a, spec_vec3_min(b, c))
}

/// Componentwise maximum of triangle `k`'s three corners.
pub open spec fn spec_tri_max(vs: Seq<Vector3>, is: Seq<u32>, k: int) -> Vector3 {
    let a = vs[is[3 * k] as int];
    let b = vs[is[3 * k + 1] as int];
    let c = vs[is[3 * k + 2] as int];
    spec_vec3_max(a, spec_vec3_max(b, c))
}

/// Lower bounding-box corner over the first `k` triangles, folded from the
/// greatest finite pattern exactly as the builder accumulates it.
pub open spec fn spec_bbox_min(vs: Seq<Vector3>, is: Seq<u32>, k: int) -> Vector3
    decreases k,
{
    if k <= 0 {
        Vector3 { x: BITS_GREATEST, y: BITS_GREATEST, z: BITS_GREATEST }
    } else {
        spec_vec3_min(spec_bbox_min(vs, is, k - 1), spec_tri_min(vs, is, k - 1))
    }
}

/// Upper bounding-box corner over the first `k` triangles.
pub open spec fn spec_bbox_max(vs: Seq<Vector3>, is: Seq<u32>, k: int) -> Vector3
    decreases k,
{
    if k <= 0 {
        Vector3 { x: BITS_LEAST, y: BITS_LEAST, z: BITS_LEAST }
    } else {
        spec_vec3_max(spec_bbox_max(vs, is, k - 1), spec_tri_max(vs, is, k - 1))
    }
}

/// The wire descriptor of a mesh whose triangles start at `first` in the
/// global triangle buffer.
pub open spec fn spec_descriptor(
    vs: Seq<Vector3>,
    is: Seq<u32>,
    material: RayTracingMaterial,
    first: u32,
) -> GpuMeshDescriptor {
    GpuMeshDescriptor {
        first_index: first,
        len: (is.len() as int / 3) as u32,
        material: material,
        min_point: spec_bbox_min(vs, is, is.len() as int / 3),
        max_point: spec_bbox_max(vs, is, is.len() as int / 3),
    }
}

/// Number of triangles of the first `j` meshes together: the offset at
/// which mesh `j`'s triangles start in the global buffer.
pub open spec fn prefix_tris(s: Seq<RayTracingMesh>, j: int) -> int
    decreases j,
{
    if j <= 0 {
        0
    } else {
        prefix_tris(s, j - 1) + s[j - 1].mesh.tri_count()
    }
}

pub open spec fn all_meshes_valid(s: Seq<RayTracingMesh>) -> bool {
    forall|j: int| 0 <= j < s.len() ==> (#[trigger] s[j]).mesh.valid()
}

/// The global triangle buffer of the first `j` meshes: each mesh's
/// triangles in order, meshes in list order.
pub open spec fn all_triangles(s: Seq<RayTracingMesh>, j: int) -> Seq<GpuTriangle>
    decreases j,
{
    if j <= 0 {
        Seq::empty()
    } else {
        all_triangles(s, j - 1) + spec_triangle_seq(
            s[j - 1].mesh.vertices@,
            s[j - 1].mesh.indices@,
        )
    }
}

pub proof fn lemma_all_triangles_len(s: Seq<RayTracingMesh>, j: int)
    requires
        0 <= j <= s.len(),
        all_meshes_valid(s),
    ensures
        all_triangles(s, j).len() == prefix_tris(s, j),
    decreases j,
{
    if j > 0 {
        lemma_all_triangles_len(s, j - 1);
    }
}

/// Law: each descriptor names exactly its own mesh's triangles. The slice
/// of the global triangle buffer that starts at mesh `j`'s prefix offset
/// and runs for its triangle count is precisely mesh `j`'s triangle
/// sequence.
pub proof fn lemma_descriptor_slice(s: Seq<RayTracingMesh>, j: int)
    requires
        0 <= j < s.len(),
        all_meshes_valid(s),
    ensures
        all_triangles(s, s.len() as int).subrange(
            prefix_tris(s, j),
            prefix_tris(s, j) + s[j].mesh.tri_count(),
        ) == spec_triangle_seq(s[j].mesh.vertices@, s[j].mesh.indices@),
{
    lemma_descriptor_slice_upto(s, j, s.len() as int);
}

proof fn lemma_descriptor_slice_upto(s: Seq<RayTracingMesh>, j: int, n: int)
    requires
        0 <= j < n <= s.len(),
        all_meshes_valid(s),
    ensures
        all_triangles(s, n).subrange(
            prefix_tris(s, j),
            prefix_tris(s, j) + s[j].mesh.tri_count(),
        ) == spec_triangle_seq(s[j].mesh.vertices@, s[j].mesh.indices@),
    decreases n,
{
    lemma_prefix_tris_nonnegative(s, j);
    lemma_all_triangles_len(s, n - 1);
    if n == j + 1 {
        assert(all_triangles(s, n) == all_triangles(s, j) + spec_triangle_seq(
            s[j].mesh.vertices@,
            s[j].mesh.indices@,
        ));
        assert(all_triangles(s, n).subrange(
            prefix_tris(s, j),
            prefix_tris(s, j) + s[j].mesh.tri_count(),
        ) =~= spec_triangle_seq(s[j].mesh.vertices@, s[j].mesh.indices@));
    } else {
        lemma_descriptor_slice_upto(s, j, n - 1);
        lemma_prefix_tris_monotonic(s, j + 1, n - 1);
        assert(all_triangles(s, n) == all_triangles(s, n - 1) + spec_triangle_seq(
            s[n - 1].mesh.vertices@,
            s[n - 1].mesh.indices@,
        ));
        assert(all_triangles(s, n).subrange(
            prefix_tris(s, j),
            prefix_tris(s, j) + s[j].mesh.tri_count(),
        ) =~= all_triangles(s, n - 1).subrange(
            prefix_tris(s, j),
            prefix_tris(s, j) + s[j].mesh.tri_count(),
        ));
    }
}

pub proof fn lemma_prefix_tris_monotonic(s: Seq<RayTracingMesh>, i: int, j: int)
    requires
        0 <= i <= j,
    ensures
        prefix_tris(s, i) <= prefix_tris(s, j),
    decreases j - i,
{
    if i < j {
        lemma_prefix_tris_monotonic(s, i, j - 1);
    }
}

pub proof fn lemma_prefix_tris_nonnegative(s: Seq<RayTracingMesh>, j: int)
    ensures
        prefix_tris(s, j) >= 0,
    decreases j,
{
    if j > 0 {
        lemma_prefix_tris_nonnegative(s, j - 1);
    }
}

/// Flattens one mesh's triangles onto the end of the global triangle
/// buffer and returns the mesh's descriptor.
fn append_mesh_triangles(tris: &mut Vec<GpuTriangle>, m: &RayTracingMesh) -> (desc:
    GpuMeshDescriptor)
    requires
        m.mesh.valid(),
        old(tris)@.len() + m.mesh.tri_count() <= u32::MAX,
    ensures
        final(tris)@ == old(tris)@ + spec_triangle_seq(m.mesh.vertices@, m.mesh.indices@),
        desc == spec_descriptor(
            m.mesh.vertices@,
            m.mesh.indices@,
            m.material,
            old(tris)@.len() as u32,
        ),
{
    let ghost vs = m.mesh.vertices@;
    let ghost is = m.mesh.indices@;
    let first = tris.len() as u32;
    let total: usize = m.mesh.indices.len();
    let num_tris: usize = total / 3;
    proof {
        lemma_fundamental_div_mod(total as int, 3);
    }
    let mut min_p = Vector3 { x: BITS_GREATEST, y: BITS_GREATEST, z: BITS_GREATEST };
    let mut max_p = Vector3 { x: BITS_LEAST, y: BITS_LEAST, z: BITS_LEAST };
    let mut k: usize = 0;
    while k < num_tris
        invariant
            m.mesh.valid(),
            vs == m.mesh.vertices@,
            is == m.mesh.indices@,
            num_tris == is.len() as int / 3,
            total == is.len(),
            3 * num_tris == total,
            k <= num_tris,
            old(tris)@.len() + num_tris <= u32::MAX,
            tris@.len() == old(tris)@.len() + k,
            tris@ == old(tris)@ + spec_triangle_seq(vs, is).take(k as int),
            min_p == spec_bbox_min(vs, is, k as int),
            max_p == spec_bbox_max(vs, is, k as int),
        decreases num_tris - k,
    {
        let i: usize = 3 * k;
        let a = m.mesh.vertices[m.mesh.indices[i] as usize];
        let b = m.mesh.vertices[m.mesh.indices[i + 1] as usize];
        let c = m.mesh.vertices[m.mesh.indices[i + 2] as usize];
        let edge_one = b.sub(&a);
        let edge_two = c.sub(&a);
        let norm = edge_one.cross(&edge_two);

        min_p = min_p.min(&a.min(&b.min(&c)));
        max_p = max_p.max(&a.max(&b.max(&c)));

        tris.push(GpuTriangle {
            a: a.extend(),
            edge_one: edge_one.extend(),
            edge_two: edge_two.extend(),
            normal: norm.extend(),
        });

        proof {
            assert(spec_triangle_seq(vs, is).take(k + 1) =~= spec_triangle_seq(vs, is).take(
                k as int,
            ).push(spec_triangle_at(vs, is, k as int)));
            assert(tris@ =~= old(tris)@ + spec_triangle_seq(vs, is).take(k + 1));
        }
        k = k + 1;
    }
    proof {
        assert(spec_triangle_seq(vs, is).take(num_tris as int) =~= spec_triangle_seq(vs, is));
    }
    GpuMeshDescriptor {
        first_index: first,
        len: num_tris as u32,
        material: m.material,
        min_point: min_p,
        max_point: max_p,
    }
}

/// Flattens all meshes' triangles into one global buffer and records, per
/// mesh, its offset, length, material and exact bounding box.
pub fn transform_meshes(meshes: &Vec<RayTracingMesh>) -> (r: (Vec<GpuTriangle>, Vec<
    GpuMeshDescriptor,
>))
    requires
        all_meshes_valid(meshes@),
        prefix_tris(meshes@, meshes@.len() as int) <= u32::MAX,
    ensures
        r.0@ == all_triangles(meshes@, meshes@.len() as int),
        r.1@.len() == meshes@.len(),
        forall|j: int|
            0 <= j < meshes@.len() ==> r.1@[j] == spec_descriptor(
                meshes@[j].mesh.vertices@,
                meshes@[j].mesh.indices@,
                meshes@[j].material,
                prefix_tris(meshes@, j) as u32,
            ),
{
    let mut tris: Vec<GpuTriangle> = Vec::new();
    let mut descs: Vec<GpuMeshDescriptor> = Vec::new();
    let mut j: usize = 0;
    while j < meshes.len()
        invariant
            all_meshes_valid(meshes@),
            prefix_tris(meshes@, meshes@.len() as int) <= u32::MAX,
            j <= meshes@.len(),
            tris@ == all_triangles(meshes@, j as int),
            tris@.len() == prefix_tris(meshes@, j as int),
            descs@.len() == j,
            forall|jj: int|
                0 <= jj < j ==> descs@[jj] == spec_descriptor(
                    meshes@[jj].mesh.vertices@,
                    meshes@[jj].mesh.indices@,
                    meshes@[jj].material,
                    prefix_tris(meshes@, jj) as u32,
                ),
        decreases meshes@.len() - j,
    {
        proof {
            lemma_prefix_tris_monotonic(meshes@, j + 1, meshes@.len() as int);
            lemma_prefix_tris_nonnegative(meshes@, j as int);
        }
        let desc = append_mesh_triangles(&mut tris, &meshes[j]);
        descs.push(desc);
        j = j + 1;
    }
    (tris, descs)
}

/// Law: the recorded bounding box bounds every corner of every triangle
/// it was folded over — componentwise, the lower corner orders at or
/// below each triangle corner, and each corner at or below the upper one.
pub proof fn lemma_bbox_bounds_corners(vs: Seq<Vector3>, is: Seq<u32>, k: int, t: int)
    requires
        0 <= t < k,
    ensures
        spec_vec3_le(spec_bbox_min(vs, is, k), vs[is[3 * t] as int]),
        spec_vec3_le(spec_bbox_min(vs, is, k), vs[is[3 * t + 1] as int]),
        spec_vec3_le(spec_bbox_min(vs, is, k), vs[is[3 * t + 2] as int]),
        spec_vec3_le(vs[is[3 * t] as int], spec_bbox_max(vs, is, k)),
        spec_vec3_le(vs[is[3 * t + 1] as int], spec_bbox_max(vs, is, k)),
        spec_vec3_le(vs[is[3 * t + 2] as int], spec_bbox_max(vs, is, k)),
    decreases k,
{
    if t < k - 1 {
        lemma_bbox_bounds_corners(vs, is, k - 1, t);
    }
}

/// A vector whose three components all encode finite values.
pub open spec fn finite_vec3(v: Vector3) -> bool {
    finite_bits(v.x) && finite_bits(v.y) && finite_bits(v.z)
}

/// Law: the bounding box recorded for a mesh of a single triangle is the
/// exact per-axis minimum and maximum of its three (finite) vertices.
pub proof fn lemma_single_triangle_bbox(
    vs: Seq<Vector3>,
    is: Seq<u32>,
    material: RayTracingMaterial,
    first: u32,
)
    requires
        is.len() == 3,
        forall|i: int| 0 <= i < 3 ==> is[i] < vs.len(),
        finite_vec3(vs[is[0] as int]),
        finite_vec3(vs[is[1] as int]),
        finite_vec3(vs[is[2] as int]),
    ensures
        spec_descriptor(vs, is, material, first).min_point == spec_tri_min(vs, is, 0),
        spec_descriptor(vs, is, material, first).max_point == spec_tri_max(vs, is, 0),
{
    assert(is.len() as int / 3 == 1);
    assert(spec_bbox_min(vs, is, 0) == (Vector3 {
        x: BITS_GREATEST,
        y: BITS_GREATEST,
        z: BITS_GREATEST,
    }));
    assert(spec_bbox_max(vs, is, 0) == (Vector3 { x: BITS_LEAST, y: BITS_LEAST, z: BITS_LEAST }));
}

/// The sphere buffer is correct for the sphere list: one zero-effect
/// sentinel and count zero for an empty list, else one record per sphere
/// in order and the sphere count.
pub open spec fn sphere_buffer_correct(buf: Seq<GpuSphere>, count: u32, spheres: Seq<Sphere>)
    -> bool {
    &&& count == spheres.len()
    &&& if spheres.len() == 0 {
        buf == seq![
            spec_gpu_sphere(
                Sphere {
                    centre: Vector3 { x: BITS_ZERO, y: BITS_ZERO, z: BITS_ZERO },
                    radius: BITS_ZERO,
                    material: spec_null_material(),
                },
            ),
        ]
    } else {
        &&& buf.len() == spheres.len()
        &&& forall|i: int| 0 <= i < spheres.len() ==> buf[i] == spec_gpu_sphere(spheres[i])
    }
}

/// The triangle and descriptor buffers are correct for the mesh list: the
/// buffers of one zero-effect sentinel mesh and count zero for an empty
/// list, else the flattened triangles, one descriptor per mesh at its
/// prefix offset, and the mesh count.
pub open spec fn mesh_buffer_correct(
    tris: Seq<GpuTriangle>,
    descs: Seq<GpuMeshDescriptor>,
    count: u32,
    meshes: Seq<RayTracingMesh>,
) -> bool {
    &&& count == meshes.len()
    &&& if meshes.len() == 0 {
        let vs = seq![Vector3 { x: BITS_ZERO, y: BITS_ZERO, z: BITS_ZERO }];
        let is = seq![0u32, 0u32, 0u32];
        &&& tris == spec_triangle_seq(vs, is)
        &&& descs == seq![spec_descriptor(vs, is, spec_null_material(), 0u32)]
    } else {
        &&& tris == all_triangles(meshes, meshes.len() as int)
        &&& descs.len() == meshes.len()
        &&& forall|j: int|
            0 <= j < meshes.len() ==> descs[j] == spec_descriptor(
                meshes[j].mesh.vertices@,
                meshes[j].mesh.indices@,
                meshes[j].material,
                prefix_tris(meshes, j) as u32,
            )
    }
}

/// Converts the sphere list to its wire records. An empty list becomes
/// exactly one zero-effect sentinel sphere; the reported count is the
/// number of real spheres either way.
pub fn build_sphere_buffer(spheres: &Vec<Sphere>) -> (r: (Vec<GpuSphere>, u32))
    requires
        spheres@.len() <= u32::MAX,
    ensures
        sphere_buffer_correct(r.0@, r.1, spheres@),
{
    if spheres.len() == 0 {
        let null = get_null_sphere();
        let mut buf: Vec<GpuSphere> = Vec::new();
        buf.push(null.to_gpu());
        return (buf, 0);
    }
    let mut buf: Vec<GpuSphere> = Vec::new();
    let mut i: usize = 0;
    while i < spheres.len()
        invariant
            i <= spheres@.len(),
            buf@.len() == i,
            forall|ii: int| 0 <= ii < i ==> buf@[ii] == spec_gpu_sphere(spheres@[ii]),
        decreases spheres@.len() - i,
    {
        buf.push(spheres[i].to_gpu());
        i = i + 1;
    }
    (buf, spheres.len() as u32)
}

/// Converts the mesh list to its triangle and descriptor buffers. An empty
/// list becomes the buffers of exactly one zero-effect sentinel mesh; the
/// reported count is the number of real meshes either way.
pub fn build_mesh_buffer(meshes: &Vec<RayTracingMesh>) -> (r: (Vec<GpuTriangle>, Vec<
    GpuMeshDescriptor,
>, u32))
    requires
        all_meshes_valid(meshes@),
        prefix_tris(meshes@, meshes@.len() as int) <= u32::MAX,
        meshes@.len() <= u32::MAX,
    ensures
        mesh_buffer_correct(r.0@, r.1@, r.2, meshes@),
{
    if meshes.len() == 0 {
        let null = get_null_mesh();
        let mut one: Vec<RayTracingMesh> = Vec::new();
        one.push(null);
        proof {
            assert(one@[0].mesh.valid());
            assert(prefix_tris(one@, 0) == 0);
            assert(prefix_tris(one@, 1) == 1);
        }
        let (tris, descs) = transform_meshes(&one);
        proof {
            let vs = seq![Vector3 { x: BITS_ZERO, y: BITS_ZERO, z: BITS_ZERO }];
            let is = seq![0u32, 0u32, 0u32];
            assert(all_triangles(one@, 0) =~= Seq::empty());
            assert(tris@ =~= spec_triangle_seq(vs, is));
            assert(descs@ =~= seq![spec_descriptor(vs, is, spec_null_material(), 0u32)]);
        }
        return (tris, descs, 0);
    }
    let (tris, descs) = transform_meshes(meshes);
    (tris, descs, meshes.len() as u32)
}

} // verus!
