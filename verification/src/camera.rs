//! The camera and its per-dispatch world-alignment transform.

use vstd::prelude::*;
use crate::fbits::BITS_ONE;
use crate::vector::{
    Vector3, Vector4, spec_vec3_add, spec_vec3_scale, spec_vec3_cross, spec_vec3_neg,
    spec_vec3_normalised,
};

verus! {

/// The interactively moved camera: a position, a viewing direction, an up
/// direction, and the velocity its movement state currently gives it.
/// Direction and up are expected unit length and not parallel.
#[derive(Clone, Copy, Debug, PartialEq, Eq, Structural)]
pub struct Camera {
    pub position: Vector3,
    pub direction: Vector3,
    pub up: Vector3,
    pub velocity: Vector3,
}

/// The camera every field defaults to: at the origin, looking along the
/// canonical forward axis, upright, at rest.
pub open spec fn spec_default_camera() -> Camera {
    Camera {
        position: Vector3 { x: 0, y: 0, z: 0 },
        direction: Vector3 { x: BITS_ONE, y: 0, z: 0 },
        up: Vector3 { x: 0, y: BITS_ONE, z: 0 },
        velocity: Vector3 { x: 0, y: 0, z: 0 },
    }
}

/// A row-major homogeneous transform.
#[derive(Clone, Copy, Debug, PartialEq, Eq, Structural)]
pub struct Matrix4 {
    pub x: Vector4,
    pub y: Vector4,
    pub z: Vector4,
    pub w: Vector4,
}

/// The world-alignment matrix of a camera: with X the normalised viewing
/// direction, Z the normalised direction times up cross product negated,
/// and Y the normalised X times Z cross product negated, the transpose of
/// the column matrix [X|Y|Z], augmented with the homogeneous row. It maps
/// rays given relative to a canonical camera at the origin looking along
/// the forward axis into world space.
pub open spec fn spec_alignment(camera: Camera) -> Matrix4 {
    let new_x = spec_vec3_normalised(camera.direction);
    let new_z = spec_vec3_neg(
        spec_vec3_normalised(spec_vec3_cross(camera.direction, camera.up)),
    );
    let new_y = spec_vec3_neg(spec_vec3_normalised(spec_vec3_cross(new_x, new_z)));
    Matrix4 {
        x: Vector4 { x: new_x.x, y: new_x.y, z: new_x.z, w: 0 },
        y: Vector4 { x: new_y.x, y: new_y.y, z: new_y.z, w: 0 },
        z: Vector4 { x: new_z.x, y: new_z.y, z: new_z.z, w: 0 },
        w: Vector4 { x: 0, y: 0, z: 0, w: BITS_ONE },
    }
}

impl Camera {
    /// A camera from optional parts; whatever is absent takes its default.
    pub fn new(
        position: Option<Vector3>,
        direction: Option<Vector3>,
        up: Option<Vector3>,
        velocity: Option<Vector3>,
    ) -> (r: Camera)
        ensures
            r.position == if position is Some { position->0 } else { spec_default_camera().position },
            r.direction == if direction is Some { direction->0 } else { spec_default_camera().direction },
            r.up == if up is Some { up->0 } else { spec_default_camera().up },
            r.velocity == if velocity is Some { velocity->0 } else { spec_default_camera().velocity },
    {
        Camera {
            position: match position {
                Some(p) => p,
                None => Vector3 { x: 0, y: 0, z: 0 },
            },
            direction: match direction {
                Some(d) => d,
                None => Vector3 { x: BITS_ONE, y: 0, z: 0 },
            },
            up: match up {
                Some(u) => u,
                None => Vector3 { x: 0, y: BITS_ONE, z: 0 },
            },
            velocity: match velocity {
                Some(v) => v,
                None => Vector3 { x: 0, y: 0, z: 0 },
            },
        }
    }

    /// One explicit Euler step: the position advances by the velocity
    /// times the elapsed frame time, independent of render cadence.
    pub fn do_move(&mut self, frame_time: u32)
        ensures
            final(self).position == spec_vec3_add(
                old(self).position,
                spec_vec3_scale(old(self).velocity, frame_time),
            ),
            final(self).direction == old(self).direction,
            final(self).up == old(self).up,
            final(self).velocity == old(self).velocity,
    {
        let step = self.velocity.scale(frame_time);
        self.position = self.position.add(&step);
    }
}

/// The world-alignment matrix of the camera, computed once per dispatch.
/// Pure and stateless; direction and up must not be parallel for the
/// result to be a basis.
pub fn compute_alignment(camera: &Camera) -> (m: Matrix4)
    ensures
        m == spec_alignment(*camera),
{
    let new_x = camera.direction.normalised();
    let new_z = camera.direction.cross(&camera.up).normalised().neg();
    let new_y = new_x.cross(&new_z).normalised().neg();
    Matrix4 {
        x: new_x.extend(),
        y: new_y.extend(),
        z: new_z.extend(),
        w: Vector4 { x: 0, y: 0, z: 0, w: BITS_ONE },
    }
}

} // verus!
