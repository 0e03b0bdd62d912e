//! Physically inspired materials and their one total conversion to the
//! fixed GPU record the trace kernel reads.

use vstd::prelude::*;
use crate::fbits::{BITS_ZERO, BITS_ONE, BITS_HALF};
use crate::vector::{Vector3, Vector4};

verus! {

/// The wire record a material occupies inside the sphere and
/// mesh-descriptor buffers: colour, emission, and packed settings
/// (diffuse probability, smoothness, fuzz, invisibility flag).
#[derive(Clone, Copy, Debug, PartialEq, Eq, Structural)]
pub struct RayTracingMaterial {
    pub colour: Vector4,
    pub emission: Vector4,
    pub settings: Vector4,
}

/// Closed set of authoring-level materials. Every variant has exactly one
/// GPU record, given by `spec_record`; the conversion is total and pure.
#[derive(Clone, Copy, Debug, PartialEq, Eq, Structural)]
pub enum Material {
    Lambertian { colour: Vector3 },
    Metal { colour: Vector3, smoothness: u32, fuzz: u32 },
    Light { emission: Vector4 },
    InvisibleLight { emission: Vector4 },
    Custom {
        colour: Vector3,
        emission_colour: Vector3,
        emission_strength: u32,
        smoothness: u32,
        fuzz: u32,
        specular_probability: u32,
    },
}

/// Colour of every light-emitting record: solid white.
pub open spec fn spec_white() -> Vector4 {
    Vector4 { x: BITS_ONE, y: BITS_ONE, z: BITS_ONE, w: BITS_ONE }
}

/// A record component of all zeroes.
pub open spec fn spec_zero4() -> Vector4 {
    Vector4 { x: BITS_ZERO, y: BITS_ZERO, z: BITS_ZERO, w: BITS_ZERO }
}

/// The GPU record of each material variant.
pub open spec fn spec_record(m: Material) -> RayTracingMaterial {
    match m {
        Material::Lambertian { colour } => RayTracingMaterial {
            colour: Vector4 { x: colour.x, y: colour.y, z: colour.z, w: BITS_ZERO },
            emission: spec_zero4(),
            settings: Vector4 { x: BITS_ONE, y: BITS_ZERO, z: BITS_ZERO, w: BITS_ZERO },
        },
        Material::Metal { colour, smoothness, fuzz } => RayTracingMaterial {
            colour: Vector4 { x: colour.x, y: colour.y, z: colour.z, w: BITS_ZERO },
            emission: spec_zero4(),
            settings: Vector4 { x: BITS_ZERO, y: smoothness, z: fuzz, w: BITS_ZERO },
        },
        Material::Light { emission } => RayTracingMaterial {
            colour: spec_white(),
            emission: emission,
            settings: Vector4 { x: BITS_ZERO, y: BITS_ONE, z: BITS_ZERO, w: BITS_ZERO },
        },
        Material::InvisibleLight { emission } => RayTracingMaterial {
            colour: spec_white(),
            emission: emission,
            settings: Vector4 { x: BITS_ZERO, y: BITS_ONE, z: BITS_ZERO, w: BITS_ONE },
        },
        Material::Custom {
            colour,
            emission_colour,
            emission_strength,
            smoothness,
            fuzz,
            specular_probability,
        } => RayTracingMaterial {
            colour: Vector4 { x: colour.x, y: colour.y, z: colour.z, w: BITS_ZERO },
            emission: Vector4 {
                x: emission_colour.x,
                y: emission_colour.y,
                z: emission_colour.z,
                w: emission_strength,
            },
            settings: Vector4 { x: specular_probability, y: smoothness, z: fuzz, w: BITS_ZERO },
        },
    }
}

impl Material {
    /// The one total conversion from an authoring material to its GPU
    /// record. Deterministic, never fails, defined for every variant.
    pub fn to_record(&self) -> (r: RayTracingMaterial)
        ensures
            r == spec_record(*self),
    {
        match *self {
            Material::Lambertian { colour } => RayTracingMaterial {
                colour: Vector4 { x: colour.x, y: colour.y, z: colour.z, w: BITS_ZERO },
                emission: Vector4 { x: BITS_ZERO, y: BITS_ZERO, z: BITS_ZERO, w: BITS_ZERO },
                settings: Vector4 { x: BITS_ONE, y: BITS_ZERO, z: BITS_ZERO, w: BITS_ZERO },
            },
            Material::Metal { colour, smoothness, fuzz } => RayTracingMaterial {
                colour: Vector4 { x: colour.x, y: colour.y, z: colour.z, w: BITS_ZERO },
                emission: Vector4 { x: BITS_ZERO, y: BITS_ZERO, z: BITS_ZERO, w: BITS_ZERO },
                settings: Vector4 { x: BITS_ZERO, y: smoothness, z: fuzz, w: BITS_ZERO },
            },
            Material::Light { emission } => RayTracingMaterial {
                colour: Vector4 { x: BITS_ONE, y: BITS_ONE, z: BITS_ONE, w: BITS_ONE },
                emission: emission,
                settings: Vector4 { x: BITS_ZERO, y: BITS_ONE, z: BITS_ZERO, w: BITS_ZERO },
            },
            Material::InvisibleLight { emission } => RayTracingMaterial {
                colour: Vector4 { x: BITS_ONE, y: BITS_ONE, z: BITS_ONE, w: BITS_ONE },
                emission: emission,
                settings: Vector4 { x: BITS_ZERO, y: BITS_ONE, z: BITS_ZERO, w: BITS_ONE },
            },
            Material::Custom {
                colour,
                emission_colour,
                emission_strength,
                smoothness,
                fuzz,
                specular_probability,
            } => RayTracingMaterial {
                colour: Vector4 { x: colour.x, y: colour.y, z: colour.z, w: BITS_ZERO },
                emission: Vector4 {
                    x: emission_colour.x,
                    y: emission_colour.y,
                    z: emission_colour.z,
                    w: emission_strength,
                },
                settings: Vector4 {
                    x: specular_probability,
                    y: smoothness,
                    z: fuzz,
                    w: BITS_ZERO,
                },
            },
        }
    }
}

/// Anything that can stand in a scene as a surface description and hand
/// the kernel its wire record.
pub trait RayTraceMaterial {
    /// The record this material converts to.
    spec fn spec_mat(&self) -> RayTracingMaterial;

    fn to_mat(&self) -> (r: RayTracingMaterial)
        ensures
            r == self.spec_mat(),
    ;
}

pub struct LambertianMaterial {
    pub colour: Vector3,
}

impl RayTraceMaterial for LambertianMaterial {
    open spec fn spec_mat(&self) -> RayTracingMaterial {
        spec_record(Material::Lambertian { colour: self.colour })
    }

    fn to_mat(&self) -> (r: RayTracingMaterial) {
        Material::Lambertian { colour: self.colour }.to_record()
    }
}

pub struct MetalMaterial {
    pub colour: Vector3,
    pub smoothness: u32,
    pub fuzz: u32,
}

impl RayTraceMaterial for MetalMaterial {
    open spec fn spec_mat(&self) -> RayTracingMaterial {
        spec_record(Material::Metal {
            colour: self.colour,
            smoothness: self.smoothness,
            fuzz: self.fuzz,
        })
    }

    fn to_mat(&self) -> (r: RayTracingMaterial) {
        Material::Metal { colour: self.colour, smoothness: self.smoothness, fuzz: self.fuzz }
            .to_record()
    }
}

pub struct LightMaterial {
    pub emission: Vector4,
}

impl RayTraceMaterial for LightMaterial {
    open spec fn spec_mat(&self) -> RayTracingMaterial {
        spec_record(Material::Light { emission: self.emission })
    }

    fn to_mat(&self) -> (r: RayTracingMaterial) {
        Material::Light { emission: self.emission }.to_record()
    }
}

pub struct InvisLightMaterial {
    pub emission: Vector4,
}

impl RayTraceMaterial for InvisLightMaterial {
    open spec fn spec_mat(&self) -> RayTracingMaterial {
        spec_record(Material::InvisibleLight { emission: self.emission })
    }

    fn to_mat(&self) -> (r: RayTracingMaterial) {
        Material::InvisibleLight { emission: self.emission }.to_record()
    }
}

pub struct CustomMaterial {
    pub colour: Vector3,
    pub emission_colour: Vector3,
    pub emission_strength: u32,
    pub smoothness: u32,
    pub fuzz: u32,
    pub specular_probability: u32,
}

impl RayTraceMaterial for CustomMaterial {
    open spec fn spec_mat(&self) -> RayTracingMaterial {
        spec_record(Material::Custom {
            colour: self.colour,
            emission_colour: self.emission_colour,
            emission_strength: self.emission_strength,
            smoothness: self.smoothness,
            fuzz: self.fuzz,
            specular_probability: self.specular_probability,
        })
    }

    fn to_mat(&self) -> (r: RayTracingMaterial) {
        Material::Custom {
            colour: self.colour,
            emission_colour: self.emission_colour,
            emission_strength: self.emission_strength,
            smoothness: self.smoothness,
            fuzz: self.fuzz,
            specular_probability: self.specular_probability,
        }
            .to_record()
    }
}

impl Default for CustomMaterial {
    /// A half-grey, non-emissive, fully diffuse material.
    fn default() -> (r: CustomMaterial)
        ensures
            r.colour == (Vector3 { x: BITS_HALF, y: BITS_HALF, z: BITS_HALF }),
            r.emission_colour == (Vector3 { x: BITS_ZERO, y: BITS_ZERO, z: BITS_ZERO }),
            r.emission_strength == BITS_ZERO,
            r.smoothness == BITS_ZERO,
            r.fuzz == BITS_ZERO,
            r.specular_probability == BITS_ZERO,
    {
        CustomMaterial {
            colour: Vector3 { x: BITS_HALF, y: BITS_HALF, z: BITS_HALF },
            emission_colour: Vector3 { x: BITS_ZERO, y: BITS_ZERO, z: BITS_ZERO },
            emission_strength: BITS_ZERO,
            smoothness: BITS_ZERO,
            fuzz: BITS_ZERO,
            specular_probability: BITS_ZERO,
        }
    }
}

} // verus!
