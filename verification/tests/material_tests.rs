use raytracer_core::fbits::{BITS_ZERO, BITS_ONE, BITS_HALF};
use raytracer_core::materials::{
    Material, RayTraceMaterial, LambertianMaterial, MetalMaterial, LightMaterial,
    InvisLightMaterial, CustomMaterial,
};
use raytracer_core::vector::{Vector3, Vector4};

fn v4(x: f32, y: f32, z: f32, w: f32) -> Vector4 {
    Vector4 { x: x.to_bits(), y: y.to_bits(), z: z.to_bits(), w: w.to_bits() }
}

#[test]
fn lambertian_record_is_exact() {
    let m = Material::Lambertian {
        colour: Vector3 { x: 0.5f32.to_bits(), y: 0.5f32.to_bits(), z: 0.5f32.to_bits() },
    };
    let r = m.to_record();
    assert_eq!(r.colour, v4(0.5, 0.5, 0.5, 0.0));
    assert_eq!(r.emission, v4(0.0, 0.0, 0.0, 0.0));
    assert_eq!(r.settings, v4(1.0, 0.0, 0.0, 0.0));
}

#[test]
fn metal_record_is_exact() {
    let m = Material::Metal {
        colour: Vector3 { x: 0.9f32.to_bits(), y: 0.8f32.to_bits(), z: 0.7f32.to_bits() },
        smoothness: 0.95f32.to_bits(),
        fuzz: 0.05f32.to_bits(),
    };
    let r = m.to_record();
    assert_eq!(r.colour, v4(0.9, 0.8, 0.7, 0.0));
    assert_eq!(r.emission, v4(0.0, 0.0, 0.0, 0.0));
    assert_eq!(r.settings, v4(0.0, 0.95, 0.05, 0.0));
}

#[test]
fn light_record_is_exact() {
    let m = Material::Light { emission: v4(2.0, 3.0, 4.0, 5.0) };
    let r = m.to_record();
    assert_eq!(r.colour, v4(1.0, 1.0, 1.0, 1.0));
    assert_eq!(r.emission, v4(2.0, 3.0, 4.0, 5.0));
    assert_eq!(r.settings, v4(0.0, 1.0, 0.0, 0.0));
}

#[test]
fn invisible_light_record_sets_invisibility_flag() {
    let m = Material::InvisibleLight { emission: v4(2.0, 3.0, 4.0, 5.0) };
    let r = m.to_record();
    assert_eq!(r.colour, v4(1.0, 1.0, 1.0, 1.0));
    assert_eq!(r.emission, v4(2.0, 3.0, 4.0, 5.0));
    assert_eq!(r.settings, v4(0.0, 1.0, 0.0, 1.0));
}

#[test]
fn custom_record_is_exact() {
    let m = Material::Custom {
        colour: Vector3 { x: 0.1f32.to_bits(), y: 0.2f32.to_bits(), z: 0.3f32.to_bits() },
        emission_colour: Vector3 {
            x: 0.4f32.to_bits(),
            y: 0.5f32.to_bits(),
            z: 0.6f32.to_bits(),
        },
        emission_strength: 7.0f32.to_bits(),
        smoothness: 0.8f32.to_bits(),
        fuzz: 0.9f32.to_bits(),
        specular_probability: 0.25f32.to_bits(),
    };
    let r = m.to_record();
    assert_eq!(r.colour, v4(0.1, 0.2, 0.3, 0.0));
    assert_eq!(r.emission, v4(0.4, 0.5, 0.6, 7.0));
    assert_eq!(r.settings, v4(0.25, 0.8, 0.9, 0.0));
}

#[test]
fn conversion_is_deterministic() {
    let m = Material::Lambertian {
        colour: Vector3 { x: 0.5f32.to_bits(), y: 0.25f32.to_bits(), z: 0.125f32.to_bits() },
    };
    assert_eq!(m.to_record(), m.to_record());
}

#[test]
fn material_structs_match_enum_records() {
    let colour = Vector3 { x: 0.5f32.to_bits(), y: 0.5f32.to_bits(), z: 0.5f32.to_bits() };
    let lam = LambertianMaterial { colour };
    assert_eq!(lam.to_mat(), Material::Lambertian { colour }.to_record());

    let met = MetalMaterial { colour, smoothness: BITS_ONE, fuzz: BITS_ZERO };
    assert_eq!(
        met.to_mat(),
        Material::Metal { colour, smoothness: BITS_ONE, fuzz: BITS_ZERO }.to_record()
    );

    let emission = v4(1.0, 1.0, 1.0, 10.0);
    let light = LightMaterial { emission };
    assert_eq!(light.to_mat(), Material::Light { emission }.to_record());

    let invis = InvisLightMaterial { emission };
    assert_eq!(invis.to_mat(), Material::InvisibleLight { emission }.to_record());
}

#[test]
fn custom_material_default_is_half_grey_diffuse() {
    let c = CustomMaterial::default();
    assert_eq!(c.colour, Vector3 { x: BITS_HALF, y: BITS_HALF, z: BITS_HALF });
    assert_eq!(c.emission_colour, Vector3 { x: BITS_ZERO, y: BITS_ZERO, z: BITS_ZERO });
    assert_eq!(c.emission_strength, BITS_ZERO);
    assert_eq!(c.smoothness, BITS_ZERO);
    assert_eq!(c.fuzz, BITS_ZERO);
    assert_eq!(c.specular_probability, BITS_ZERO);
    let r = c.to_mat();
    assert_eq!(r.colour, v4(0.5, 0.5, 0.5, 0.0));
    assert_eq!(r.settings, v4(0.0, 0.0, 0.0, 0.0));
}
