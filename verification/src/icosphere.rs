//! In-process authoring of icosphere meshes: an icosahedron, subdivided a
//! requested number of times with every new vertex projected back onto
//! the sphere.

use vstd::prelude::*;
use crate::fbits::{mul_bits, div_bits, neg_bits, BITS_HALF, float_mul, float_div, float_neg};
use crate::objects::Mesh;
use crate::vector::{
    Vector3, spec_vec3_add, spec_vec3_sub, spec_vec3_scale, spec_vec3_normalised,
};

verus! {

/// Pattern of the golden ratio (1 + sqrt 5) / 2 in single precision.
pub const PHI_BITS: u32 = 0x3FCF_1BBD;

/// Pattern of sqrt(1 + phi squared) in single precision: the magnitude of
/// the icosahedron's corner coordinates before scaling.
pub const SCALE_BITS: u32 = 0x3FF3_7871;

pub open spec fn pow4(n: nat) -> nat
    decreases n,
{
    if n == 0 {
        1nat
    } else {
        4 * pow4((n - 1) as nat)
    }
}

pub proof fn lemma_pow4_increases(a: nat, b: nat)
    requires
        a <= b,
    ensures
        pow4(a) <= pow4(b),
        1 <= pow4(a),
    decreases b,
{
    if a == 0 {
        if b > 0 {
            lemma_pow4_increases(0, (b - 1) as nat);
        }
    } else {
        lemma_pow4_increases((a - 1) as nat, (b - 1) as nat);
    }
}

/// Linear interpolation: a plus t of the way towards b.
pub open spec fn spec_lerp(a: Vector3, b: Vector3, t: u32) -> Vector3 {
    spec_vec3_add(a, spec_vec3_scale(spec_vec3_sub(b, a), t))
}

fn lerp(a: &Vector3, b: &Vector3, t: u32) -> (r: Vector3)
    ensures
        r == spec_lerp(*a, *b, t),
{
    a.add(&b.sub(a).scale(t))
}

/// The corners of an icosahedron of the given radius, centred on the
/// origin: three mutually perpendicular golden rectangles.
pub open spec fn spec_icosahedron_vertices(radius: u32) -> Seq<Vector3> {
    let d1 = div_bits(mul_bits(PHI_BITS, radius), SCALE_BITS);
    let d2 = div_bits(radius, SCALE_BITS);
    let n1 = neg_bits(d1);
    let n2 = neg_bits(d2);
    seq![
        Vector3 { x: n2, y: 0, z: d1 },
        Vector3 { x: d2, y: 0, z: d1 },
        Vector3 { x: n2, y: 0, z: n1 },
        Vector3 { x: d2, y: 0, z: n1 },
        Vector3 { x: 0, y: d1, z: d2 },
        Vector3 { x: 0, y: d1, z: n2 },
        Vector3 { x: 0, y: n1, z: d2 },
        Vector3 { x: 0, y: n1, z: n2 },
        Vector3 { x: d1, y: d2, z: 0 },
        Vector3 { x: n1, y: d2, z: 0 },
        Vector3 { x: d1, y: n2, z: 0 },
        Vector3 { x: n1, y: n2, z: 0 },
    ]
}

/// The icosahedron's twenty faces, counter-clockwise.
pub open spec fn spec_icosahedron_indices() -> Seq<u32> {
    seq![
        0u32, 4u32, 1u32, 0u32, 9u32, 4u32, 9u32, 5u32, 4u32, 4u32, 5u32, 8u32, 4u32, 8u32, 1u32,
        8u32, 10u32, 1u32, 8u32, 3u32, 10u32, 5u32, 3u32, 8u32, 5u32, 2u32, 3u32, 2u32, 7u32, 3u32,
        7u32, 10u32, 3u32, 7u32, 6u32, 10u32, 7u32, 11u32, 6u32, 11u32, 0u32, 6u32, 0u32, 1u32,
        6u32, 6u32, 1u32, 10u32, 9u32, 0u32, 11u32, 9u32, 11u32, 2u32, 9u32, 2u32, 5u32, 7u32,
        2u32, 11u32,
    ]
}

/// Midpoint vertex `e` of triangle `k` (edge one-two, two-three, or
/// one-three), projected back onto the sphere of the given radius.
pub open spec fn spec_mid_vertex(vs: Seq<Vector3>, is: Seq<u32>, radius: u32, k: int, e: int)
    -> Vector3 {
    let v1 = vs[is[3 * k] as int];
    let v2 = vs[is[3 * k + 1] as int];
    let v3 = vs[is[3 * k + 2] as int];
    let m = if e == 0 {
        spec_lerp(v1, v2, BITS_HALF)
    } else if e == 1 {
        spec_lerp(v2, v3, BITS_HALF)
    } else {
        spec_lerp(v1, v3, BITS_HALF)
    };
    spec_vec3_scale(spec_vec3_normalised(m), radius)
}

/// Vertices after one subdivision round: the old ones, then the three
/// midpoint vertices of each old triangle, in triangle order.
pub open spec fn spec_round_vertices(vs: Seq<Vector3>, is: Seq<u32>, radius: u32) -> Seq<Vector3> {
    vs + Seq::new(
        (is.len() as int / 3 * 3) as nat,
        |t: int| spec_mid_vertex(vs, is, radius, t / 3, t % 3),
    )
}

/// Index entry `t` after one subdivision round: each old triangle becomes
/// four, three at its corners and one joining its midpoints, whose new
/// vertices start at `vs_len + 3 * (t / 12)`.
pub open spec fn spec_child_entry(vs_len: int, is: Seq<u32>, t: int) -> u32 {
    let k = t / 12;
    let j = t % 12;
    let b = vs_len + 3 * k;
    if j == 0 {
        is[3 * k]
    } else if j == 1 {
        b as u32
    } else if j == 2 {
        (b + 2) as u32
    } else if j == 3 {
        is[3 * k + 1]
    } else if j == 4 {
        (b + 1) as u32
    } else if j == 5 {
        b as u32
    } else if j == 6 {
        is[3 * k + 2]
    } else if j == 7 {
        (b + 2) as u32
    } else if j == 8 {
        (b + 1) as u32
    } else if j == 9 {
        b as u32
    } else if j == 10 {
        (b + 1) as u32
    } else {
        (b + 2) as u32
    }
}

pub open spec fn spec_round_indices(vs_len: int, is: Seq<u32>) -> Seq<u32> {
    Seq::new((is.len() as int / 3 * 12) as nat, |t: int| spec_child_entry(vs_len, is, t))
}

/// The mesh data after the given number of subdivision rounds.
pub open spec fn spec_subdivided(vs: Seq<Vector3>, is: Seq<u32>, radius: u32, rounds: nat) -> (
    Seq<Vector3>,
    Seq<u32>,
)
    decreases rounds,
{
    if rounds == 0 {
        (vs, is)
    } else {
        spec_subdivided(
            spec_round_vertices(vs, is, radius),
            spec_round_indices(vs.len() as int, is),
            radius,
            (rounds - 1) as nat,
        )
    }
}

/// One more round subdivides the result of the rounds before it.
pub proof fn lemma_subdivided_step(vs: Seq<Vector3>, is: Seq<u32>, radius: u32, n: nat)
    ensures
        spec_subdivided(vs, is, radius, n + 1) == (spec_round_vertices(
            spec_subdivided(vs, is, radius, n).0,
            spec_subdivided(vs, is, radius, n).1,
            radius,
        ), spec_round_indices(
            spec_subdivided(vs, is, radius, n).0.len() as int,
            spec_subdivided(vs, is, radius, n).1,
        )),
    decreases n,
{
    let rvs = spec_round_vertices(vs, is, radius);
    let ris = spec_round_indices(vs.len() as int, is);
    if n == 0 {
        assert(spec_subdivided(vs, is, radius, 1) == spec_subdivided(rvs, ris, radius, 0));
        assert(spec_subdivided(rvs, ris, radius, 0) == (rvs, ris));
        assert(spec_subdivided(vs, is, radius, 0) == (vs, is));
    } else {
        lemma_subdivided_step(rvs, ris, radius, (n - 1) as nat);
        assert(spec_subdivided(vs, is, radius, n + 1) == spec_subdivided(rvs, ris, radius, n));
        assert(spec_subdivided(vs, is, radius, n) == spec_subdivided(
            rvs,
            ris,
            radius,
            (n - 1) as nat,
        ));
    }
}

/// The first nine powers of four, spelt out for bounds reasoning.
pub proof fn lemma_pow4_values()
    ensures
        pow4(0) == 1,
        pow4(8) == 65536,
{
    assert(pow4(0) == 1);
    assert(pow4(1) == 4);
    assert(pow4(2) == 16);
    assert(pow4(3) == 64);
    assert(pow4(4) == 256);
    assert(pow4(5) == 1024);
    assert(pow4(6) == 4096);
    assert(pow4(7) == 16384);
    assert(pow4(8) == 65536);
}

/// Generates an icosphere mesh of the given radius around the given
/// centre, subdividing each face four ways per round. Every round turns
/// the twenty faces times four-to-the-rounds triangles into four times as
/// many, adding three on-sphere midpoint vertices per triangle.
#[verifier::rlimit(60)]
pub fn gen_icosphere(radius: u32, centre: Vector3, num_subdivisions: usize) -> (r: Mesh)
    requires
        num_subdivisions <= 8,
    ensures
        r.indices@ == spec_subdivided(
            spec_icosahedron_vertices(radius),
            spec_icosahedron_indices(),
            radius,
            num_subdivisions as nat,
        ).1,
        ({
            let vs = spec_subdivided(
                spec_icosahedron_vertices(radius),
                spec_icosahedron_indices(),
                radius,
                num_subdivisions as nat,
            ).0;
            &&& r.vertices@.len() == vs.len()
            &&& forall|i: int|
                0 <= i < vs.len() ==> r.vertices@[i] == spec_vec3_add(vs[i], centre)
        }),
        r.valid(),
        r.indices@.len() == 60 * pow4(num_subdivisions as nat),
        r.vertices@.len() == 12 + 20 * (pow4(num_subdivisions as nat) - 1),
        r.normals@.len() == 0,
{
    let d1 = float_div(float_mul(PHI_BITS, radius), SCALE_BITS);
    let d2 = float_div(radius, SCALE_BITS);
    let n1 = float_neg(d1);
    let n2 = float_neg(d2);
    let mut vertices: Vec<Vector3> = vec![
        Vector3 { x: n2, y: 0, z: d1 },
        Vector3 { x: d2, y: 0, z: d1 },
        Vector3 { x: n2, y: 0, z: n1 },
        Vector3 { x: d2, y: 0, z: n1 },
        Vector3 { x: 0, y: d1, z: d2 },
        Vector3 { x: 0, y: d1, z: n2 },
        Vector3 { x: 0, y: n1, z: d2 },
        Vector3 { x: 0, y: n1, z: n2 },
        Vector3 { x: d1, y: d2, z: 0 },
        Vector3 { x: n1, y: d2, z: 0 },
        Vector3 { x: d1, y: n2, z: 0 },
        Vector3 { x: n1, y: n2, z: 0 },
    ];
    let mut indices: Vec<u32> = vec![
        0u32, 4, 1, 0, 9, 4, 9, 5, 4, 4, 5, 8, 4, 8, 1, 8, 10, 1, 8, 3, 10, 5, 3, 8, 5, 2, 3, 2,
        7, 3, 7, 10, 3, 7, 6, 10, 7, 11, 6, 11, 0, 6, 0, 1, 6, 6, 1, 10, 9, 0, 11, 9, 11, 2, 9, 2,
        5, 7, 2, 11,
    ];
    let ghost init_vs = spec_icosahedron_vertices(radius);
    let ghost init_is = spec_icosahedron_indices();
    proof {
        assert(vertices@ =~= init_vs);
        assert(indices@ =~= init_is);
        assert(forall|i: int| 0 <= i < 60 ==> init_is[i] < 12);
    }

    let mut round: usize = 0;
    while round < num_subdivisions
        invariant
            round <= num_subdivisions <= 8,
            vertices@ == spec_subdivided(init_vs, init_is, radius, round as nat).0,
            indices@ == spec_subdivided(init_vs, init_is, radius, round as nat).1,
            indices@.len() == 60 * pow4(round as nat),
            vertices@.len() == 12 + 20 * (pow4(round as nat) - 1),
            indices@.len() % 3 == 0,
            forall|i: int| 0 <= i < indices@.len() ==> indices@[i] < vertices@.len(),
        decreases num_subdivisions - round,
    {
        proof {
            lemma_pow4_increases(round as nat, 8);
            lemma_pow4_values();
        }
        let ghost cur_vs = vertices@;
        let ghost cur_is = indices@;
        let total: usize = indices.len();
        let num_tris: usize = total / 3;
        proof {
            vstd::arithmetic::div_mod::lemma_fundamental_div_mod(total as int, 3);
        }
        let mut next_indices: Vec<u32> = Vec::new();
        let mut k: usize = 0;
        while k < num_tris
            invariant
                k <= num_tris,
                total == cur_is.len(),
                3 * num_tris == total,
                total <= 60 * 65536,
                cur_vs.len() <= 12 + 20 * 65535,
                indices@ == cur_is,
                cur_is.len() % 3 == 0,
                forall|i: int| 0 <= i < cur_is.len() ==> cur_is[i] < cur_vs.len(),
                vertices@ == cur_vs + Seq::new(
                    (3 * k) as nat,
                    |t: int| spec_mid_vertex(cur_vs, cur_is, radius, t / 3, t % 3),
                ),
                next_indices@ == Seq::new(
                    (12 * k) as nat,
                    |t: int| spec_child_entry(cur_vs.len() as int, cur_is, t),
                ),
            decreases num_tris - k,
        {
            let i: usize = 3 * k;
            let i1 = indices[i] as usize;
            let i2 = indices[i + 1] as usize;
            let i3 = indices[i + 2] as usize;
            proof {
                assert(vertices@[i1 as int] == cur_vs[i1 as int]);
                assert(vertices@[i2 as int] == cur_vs[i2 as int]);
                assert(vertices@[i3 as int] == cur_vs[i3 as int]);
            }
            let v1 = vertices[i1];
            let v2 = vertices[i2];
            let v3 = vertices[i3];

            let new_index: u32 = vertices.len() as u32;
            vertices.push(lerp(&v1, &v2, BITS_HALF).normalised().scale(radius));
            vertices.push(lerp(&v2, &v3, BITS_HALF).normalised().scale(radius));
            vertices.push(lerp(&v1, &v3, BITS_HALF).normalised().scale(radius));

            next_indices.push(indices[i]);
            next_indices.push(new_index);
            next_indices.push(new_index + 2);

            next_indices.push(indices[i + 1]);
            next_indices.push(new_index + 1);
            next_indices.push(new_index);

            next_indices.push(indices[i + 2]);
            next_indices.push(new_index + 2);
            next_indices.push(new_index + 1);

            next_indices.push(new_index);
            next_indices.push(new_index + 1);
            next_indices.push(new_index + 2);

            proof {
                assert forall|t: int| 3 * k <= t < 3 * (k + 1) implies #[trigger] (t / 3) == k && t
                    % 3 == t - 3 * k by {
                    vstd::arithmetic::div_mod::lemma_fundamental_div_mod_converse(
                        t,
                        3,
                        k as int,
                        t - 3 * k,
                    );
                }
                assert(vertices@ =~= cur_vs + Seq::new(
                    (3 * (k + 1)) as nat,
                    |t: int| spec_mid_vertex(cur_vs, cur_is, radius, t / 3, t % 3),
                ));
                assert forall|t: int| 12 * k <= t < 12 * (k + 1) implies #[trigger] (t / 12) == k
                    && t % 12 == t - 12 * k by {
                    vstd::arithmetic::div_mod::lemma_fundamental_div_mod_converse(
                        t,
                        12,
                        k as int,
                        t - 12 * k,
                    );
                }
                assert(next_indices@ =~= Seq::new(
                    (12 * (k + 1)) as nat,
                    |t: int| spec_child_entry(cur_vs.len() as int, cur_is, t),
                ));
            }
            k = k + 1;
        }
        proof {
            assert(vertices@ =~= spec_round_vertices(cur_vs, cur_is, radius));
            assert(next_indices@ =~= spec_round_indices(cur_vs.len() as int, cur_is));
            lemma_subdivided_step(init_vs, init_is, radius, round as nat);
            assert forall|t: int| 0 <= t < 12 * num_tris implies spec_round_indices(
                cur_vs.len() as int,
                cur_is,
            )[t] < vertices@.len() by {
                vstd::arithmetic::div_mod::lemma_fundamental_div_mod(t, 12);
            }
        }
        indices = next_indices;
        round = round + 1;
    }

    let ghost final_vs = vertices@;
    let mut translated: Vec<Vector3> = Vec::new();
    let mut i: usize = 0;
    while i < vertices.len()
        invariant
            i <= vertices@.len(),
            vertices@ == final_vs,
            translated@.len() == i,
            forall|ii: int|
                0 <= ii < i ==> translated@[ii] == spec_vec3_add(final_vs[ii], centre),
        decreases vertices@.len() - i,
    {
        translated.push(vertices[i].add(&centre));
        i = i + 1;
    }
    Mesh::new(translated, indices)
}

} // verus!
