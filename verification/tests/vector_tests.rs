use raytracer_core::fbits::{float_le, float_min, float_max, float_neg};
use raytracer_core::vector::Vector3;

fn v3(x: f32, y: f32, z: f32) -> Vector3 {
    Vector3 { x: x.to_bits(), y: y.to_bits(), z: z.to_bits() }
}

#[test]
fn componentwise_arithmetic_matches_native_single_precision() {
    let pairs = [
        (1.0f32, 2.0f32),
        (0.1, 0.2),
        (-3.5, 7.25),
        (1e30, 1e-30),
        (123456.789, -0.000123),
    ];
    for (a, b) in pairs {
        let va = v3(a, a, a);
        let vb = v3(b, b, b);
        assert_eq!(va.add(&vb), v3(a + b, a + b, a + b));
        assert_eq!(va.sub(&vb), v3(a - b, a - b, a - b));
        assert_eq!(va.scale(b.to_bits()), v3(a * b, a * b, a * b));
        assert_eq!(va.div(b.to_bits()), v3(a / b, a / b, a / b));
    }
    assert_eq!(float_neg(1.5f32.to_bits()), (-1.5f32).to_bits());
    assert_eq!(float_neg((-1.5f32).to_bits()), 1.5f32.to_bits());
}

#[test]
fn ordering_agrees_with_ieee_on_finite_values() {
    let values = [-1e30f32, -2.5, -0.0, 0.0, 1e-20, 1.0, 3.5, 1e30];
    for a in values {
        for b in values {
            assert_eq!(float_le(a.to_bits(), b.to_bits()), a <= b, "le of {a} and {b}");
            let min = f32::from_bits(float_min(a.to_bits(), b.to_bits()));
            let max = f32::from_bits(float_max(a.to_bits(), b.to_bits()));
            assert_eq!(min, a.min(b), "min of {a} and {b}");
            assert_eq!(max, a.max(b), "max of {a} and {b}");
        }
    }
}

#[test]
fn vector_operations_match_native_single_precision() {
    let a = v3(1.0, 2.0, 3.0);
    let b = v3(-4.0, 5.5, 0.25);
    assert_eq!(a.add(&b), v3(-3.0, 7.5, 3.25));
    assert_eq!(a.sub(&b), v3(5.0, -3.5, 2.75));
    assert_eq!(a.scale(2.0f32.to_bits()), v3(2.0, 4.0, 6.0));
    assert_eq!(a.div(2.0f32.to_bits()), v3(0.5, 1.0, 1.5));
    assert_eq!(a.neg(), v3(-1.0, -2.0, -3.0));
    // (1,2,3) x (-4,5.5,0.25)
    assert_eq!(
        a.cross(&b),
        v3(
            2.0 * 0.25 - 3.0 * 5.5,
            3.0 * -4.0 - 1.0 * 0.25,
            1.0 * 5.5 - 2.0 * -4.0
        )
    );
    assert_eq!(a.min(&b), v3(-4.0, 2.0, 0.25));
    assert_eq!(a.max(&b), v3(1.0, 5.5, 3.0));
}

#[test]
fn magnitude_and_normalise_are_single_precision() {
    let v = v3(3.0, 4.0, 0.0);
    assert_eq!(f32::from_bits(v.magnitude()), 5.0);
    assert_eq!(v.normalised(), v3(3.0 / 5.0, 4.0 / 5.0, 0.0));
    assert_eq!(f32::from_bits(v3(2.0, 0.0, 0.0).magnitude()), 2.0);
    let w = v3(1.0, 1.0, 1.0);
    let m = (3.0f32).sqrt();
    assert_eq!(f32::from_bits(w.magnitude()), m);
    assert_eq!(w.normalised(), v3(1.0 / m, 1.0 / m, 1.0 / m));
    assert_eq!(v.extend().w, 0);
}
