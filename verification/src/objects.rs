//! Authoring-level scene objects: spheres and triangle meshes.

use vstd::prelude::*;
use crate::fbits::{BITS_ZERO, BITS_ONE};
use crate::materials::{Material, RayTracingMaterial, spec_record};
use crate::vector::Vector3;

verus! {

/// An analytic sphere with its material record.
#[derive(Clone, Copy, Debug, PartialEq, Eq, Structural)]
pub struct Sphere {
    pub centre: Vector3,
    pub radius: u32,
    pub material: RayTracingMaterial,
}

/// An indexed triangle mesh: vertex positions, optional per-vertex
/// normals, and indices in groups of three with counter-clockwise winding.
#[derive(Clone, Debug)]
pub struct Mesh {
    pub vertices: Vec<Vector3>,
    pub normals: Vec<Vector3>,
    pub indices: Vec<u32>,
}

impl Mesh {
    /// A mesh is well formed when its indices come in whole triangles and
    /// every index names a vertex.
    pub open spec fn valid(&self) -> bool {
        &&& self.indices@.len() % 3 == 0
        &&& forall|i: int|
            0 <= i < self.indices@.len() ==> self.indices@[i] < self.vertices@.len()
    }

    /// Number of whole triangles the index list describes.
    pub open spec fn tri_count(&self) -> int {
        self.indices@.len() as int / 3
    }

    pub fn new(vertices: Vec<Vector3>, indices: Vec<u32>) -> (r: Mesh)
        ensures
            r.vertices@ == vertices@,
            r.indices@ == indices@,
            r.normals@.len() == 0,
    {
        Mesh { vertices, normals: Vec::new(), indices }
    }

    pub fn set_normals(&mut self, normals: Vec<Vector3>)
        ensures
            final(self).vertices@ == old(self).vertices@,
            final(self).indices@ == old(self).indices@,
            final(self).normals@ == normals@,
    {
        self.normals = normals;
    }
}

/// A mesh paired with the single material that covers all its triangles.
#[derive(Clone, Debug)]
pub struct RayTracingMesh {
    pub mesh: Mesh,
    pub material: RayTracingMaterial,
}

/// Material of both sentinel entries: fully diffuse solid white.
pub open spec fn spec_null_material() -> RayTracingMaterial {
    spec_record(Material::Lambertian {
        colour: Vector3 { x: BITS_ONE, y: BITS_ONE, z: BITS_ONE },
    })
}

/// The zero-effect sphere substituted for an empty sphere list: zero
/// radius, at the origin, diffuse white.
pub fn get_null_sphere() -> (r: Sphere)
    ensures
        r.centre == (Vector3 { x: BITS_ZERO, y: BITS_ZERO, z: BITS_ZERO }),
        r.radius == BITS_ZERO,
        r.material == spec_null_material(),
{
    Sphere {
        centre: Vector3 { x: BITS_ZERO, y: BITS_ZERO, z: BITS_ZERO },
        radius: BITS_ZERO,
        material: Material::Lambertian {
            colour: Vector3 { x: BITS_ONE, y: BITS_ONE, z: BITS_ONE },
        }.to_record(),
    }
}

/// The zero-effect mesh substituted for an empty mesh list: one vertex at
/// the origin named three times, so its single triangle is degenerate.
pub fn get_null_mesh() -> (r: RayTracingMesh)
    ensures
        r.mesh.vertices@ == seq![Vector3 { x: BITS_ZERO, y: BITS_ZERO, z: BITS_ZERO }],
        r.mesh.indices@ == seq![0u32, 0u32, 0u32],
        r.mesh.normals@ == seq![Vector3 { x: BITS_ONE, y: BITS_ONE, z: BITS_ONE }],
        r.material == spec_null_material(),
        r.mesh.valid(),
        r.mesh.tri_count() == 1,
{
    let vertices: Vec<Vector3> = vec![Vector3 { x: BITS_ZERO, y: BITS_ZERO, z: BITS_ZERO }];
    let indices: Vec<u32> = vec![0u32, 0u32, 0u32];
    let mut mesh = Mesh::new(vertices, indices);
    mesh.set_normals(vec![Vector3 { x: BITS_ONE, y: BITS_ONE, z: BITS_ONE }]);
    RayTracingMesh {
        mesh,
        material: Material::Lambertian {
            colour: Vector3 { x: BITS_ONE, y: BITS_ONE, z: BITS_ONE },
        }.to_record(),
    }
}

} // verus!
