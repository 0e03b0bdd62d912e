//! Point lights for the raster preview pass, packed into the fixed-size
//! block its fragment shader reads.

use vstd::prelude::*;
use crate::vector::Vector3;

verus! {

/// An authoring-level point light.
#[derive(Clone, Copy, Debug, PartialEq, Eq, Structural)]
pub struct Light {
    pub pos: Vector3,
    pub strength: u32,
    pub colour: Vector3,
}

/// The wire record of one light in the shader's fixed block.
#[derive(Clone, Copy, Debug, PartialEq, Eq, Structural)]
pub struct LightRecord {
    pub position: Vector3,
    pub intensity: u32,
    pub colour: Vector3,
}

impl Default for LightRecord {
    /// A dark light: everything zero.
    fn default() -> (r: LightRecord)
        ensures
            r == spec_default_light_record(),
    {
        LightRecord {
            position: Vector3 { x: 0, y: 0, z: 0 },
            intensity: 0,
            colour: Vector3 { x: 0, y: 0, z: 0 },
        }
    }
}

pub open spec fn spec_default_light_record() -> LightRecord {
    LightRecord {
        position: Vector3 { x: 0, y: 0, z: 0 },
        intensity: 0,
        colour: Vector3 { x: 0, y: 0, z: 0 },
    }
}

pub open spec fn spec_light_record(l: Light) -> LightRecord {
    LightRecord { position: l.pos, intensity: l.strength, colour: l.colour }
}

/// Packs the first four lights into the shader's fixed block of four,
/// padding with dark lights; lights beyond the fourth are dropped.
pub fn pack_lights(lights: &Vec<Light>) -> (r: Vec<LightRecord>)
    ensures
        r@.len() == 4,
        forall|i: int|
            0 <= i < 4 ==> r@[i] == if i < lights@.len() {
                spec_light_record(lights@[i])
            } else {
                spec_default_light_record()
            },
{
    let mut packed: Vec<LightRecord> = Vec::new();
    let mut i: usize = 0;
    while i < 4
        invariant
            i <= 4,
            packed@.len() == i,
            forall|ii: int|
                0 <= ii < i ==> packed@[ii] == if ii < lights@.len() {
                    spec_light_record(lights@[ii])
                } else {
                    spec_default_light_record()
                },
        decreases 4 - i,
    {
        if i < lights.len() {
            let l = lights[i];
            packed.push(LightRecord { position: l.pos, intensity: l.strength, colour: l.colour });
        } else {
            packed.push(LightRecord::default());
        }
        i = i + 1;
    }
    packed
}

} // verus!
