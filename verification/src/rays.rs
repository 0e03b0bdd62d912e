//! Ray-sample generation: one image-plane sample point per pixel, built
//! once per resolution and field of view, reused every frame.

use vstd::prelude::*;
use vstd::arithmetic::div_mod::lemma_fundamental_div_mod_converse;
use crate::fbits::{mul_bits, div_bits, bits_of_u32, BITS_HALF, float_of_u32, float_mul,
    float_div};
use crate::vector::{
    Vector3, Vector4, spec_vec3_add, spec_vec3_sub, spec_vec3_scale, spec_vec3_div,
    spec_vec3_cross, spec_vec3_normalised, spec_vec3_extend,
};

verus! {

/// One precomputed per-pixel sample point, relative to a canonical camera
/// at the origin facing the forward axis; independent of camera pose.
#[derive(Clone, Copy, Debug, PartialEq, Eq, Structural)]
pub struct Ray {
    pub sample_centre: Vector4,
}

/// First viewport basis vector: the up vector crossed with the canonical
/// forward axis, normalised.
pub open spec fn spec_viewport_x(up: Vector3) -> Vector3 {
    spec_vec3_normalised(spec_vec3_cross(up, Vector3 { x: crate::fbits::BITS_ONE, y: 0, z: 0 }))
}

/// Second viewport basis vector: the first crossed with the canonical
/// forward axis, normalised.
pub open spec fn spec_viewport_y(up: Vector3) -> Vector3 {
    spec_vec3_normalised(
        spec_vec3_cross(spec_viewport_x(up), Vector3 { x: crate::fbits::BITS_ONE, y: 0, z: 0 }),
    )
}

/// Viewport width: the viewport height scaled by the aspect ratio.
pub open spec fn spec_viewport_width(viewport_height: u32, width: u32, height: u32) -> u32 {
    mul_bits(viewport_height, div_bits(bits_of_u32(width), bits_of_u32(height)))
}

/// The upper-left viewport corner: the focal point along the forward axis,
/// backed off by half the viewport extent.
pub open spec fn spec_viewport_upper_left(
    focal_length: u32,
    viewport_height: u32,
    up: Vector3,
    width: u32,
    height: u32,
) -> Vector3 {
    let vw = spec_viewport_width(viewport_height, width, height);
    spec_vec3_sub(
        spec_vec3_add(
            Vector3 { x: 0, y: 0, z: 0 },
            spec_vec3_scale(Vector3 { x: crate::fbits::BITS_ONE, y: 0, z: 0 }, focal_length),
        ),
        spec_vec3_scale(
            spec_vec3_add(
                spec_vec3_scale(spec_viewport_x(up), vw),
                spec_vec3_scale(spec_viewport_y(up), viewport_height),
            ),
            BITS_HALF,
        ),
    )
}

/// Step from one pixel's sample point to the next along a row.
pub open spec fn spec_pixel_x(viewport_height: u32, up: Vector3, width: u32, height: u32)
    -> Vector3 {
    spec_vec3_div(
        spec_vec3_scale(spec_viewport_x(up), spec_viewport_width(viewport_height, width, height)),
        bits_of_u32(width),
    )
}

/// Step from one pixel's sample point to the next down a column.
pub open spec fn spec_pixel_y(viewport_height: u32, up: Vector3, width: u32, height: u32)
    -> Vector3 {
    spec_vec3_div(spec_vec3_scale(spec_viewport_y(up), viewport_height), bits_of_u32(height))
}

/// The first (upper-left) pixel's sample point: the viewport corner plus
/// half a pixel step each way.
pub open spec fn spec_first_ray(
    focal_length: u32,
    viewport_height: u32,
    up: Vector3,
    width: u32,
    height: u32,
) -> Vector3 {
    spec_vec3_add(
        spec_viewport_upper_left(focal_length, viewport_height, up, width, height),
        spec_vec3_scale(
            spec_vec3_add(
                spec_pixel_x(viewport_height, up, width, height),
                spec_pixel_y(viewport_height, up, width, height),
            ),
            BITS_HALF,
        ),
    )
}

/// Sample point of the pixel in column `x`, row `y`.
pub open spec fn spec_ray_centre(
    focal_length: u32,
    viewport_height: u32,
    up: Vector3,
    width: u32,
    height: u32,
    x: u32,
    y: u32,
) -> Vector3 {
    spec_vec3_add(
        spec_vec3_add(
            spec_first_ray(focal_length, viewport_height, up, width, height),
            spec_vec3_scale(spec_pixel_x(viewport_height, up, width, height), bits_of_u32(x)),
        ),
        spec_vec3_scale(spec_pixel_y(viewport_height, up, width, height), bits_of_u32(y)),
    )
}

/// The ray buffer is correct for the given image size and view settings:
/// one sentinel ray and count zero for a degenerate size, else one ray per
/// pixel in row-major order and the pixel count.
pub open spec fn rays_correct(
    rays: Seq<Ray>,
    count: u32,
    width: u32,
    height: u32,
    focal_length: u32,
    viewport_height: u32,
    up: Vector3,
) -> bool {
    if width == 0 || height == 0 {
        &&& rays == seq![Ray { sample_centre: Vector4 { x: 0, y: 0, z: 0, w: 0 } }]
        &&& count == 0
    } else {
        &&& rays.len() == width as int * height as int
        &&& count == width as int * height as int
        &&& forall|i: int|
            0 <= i < rays.len() ==> #[trigger] rays[i] == (Ray {
                sample_centre: spec_vec3_extend(
                    spec_ray_centre(
                        focal_length,
                        viewport_height,
                        up,
                        width,
                        height,
                        (i % (width as int)) as u32,
                        (i / (width as int)) as u32,
                    ),
                ),
            })
    }
}

/// Builds the per-pixel sample points for the given resolution and view
/// settings, row-major. A zero-width or zero-height image yields exactly
/// one sentinel ray and a count of zero; the buffer is never empty.
pub fn generate_rays(
    image_size: [u32; 2],
    camera_focal_length: u32,
    viewport_height: u32,
    up: Vector3,
) -> (r: (Vec<Ray>, u32))
    requires
        image_size[0] as int * image_size[1] as int <= u32::MAX,
    ensures
        rays_correct(
            r.0@,
            r.1,
            image_size[0],
            image_size[1],
            camera_focal_length,
            viewport_height,
            up,
        ),
{
    let width = image_size[0];
    let height = image_size[1];
    if width == 0 || height == 0 {
        let mut rays: Vec<Ray> = Vec::new();
        rays.push(Ray { sample_centre: Vector4 { x: 0, y: 0, z: 0, w: 0 } });
        return (rays, 0);
    }

    let x_axis = Vector3 { x: crate::fbits::BITS_ONE, y: 0, z: 0 };
    let viewport_width = float_mul(
        viewport_height,
        float_div(float_of_u32(width), float_of_u32(height)),
    );
    let viewport_x = up.cross(&x_axis).normalised();
    let viewport_y = viewport_x.cross(&x_axis).normalised();
    let origin = Vector3 { x: 0, y: 0, z: 0 };
    let viewport_upper_left = origin.add(&x_axis.scale(camera_focal_length)).sub(
        &viewport_x.scale(viewport_width).add(&viewport_y.scale(viewport_height)).scale(
            BITS_HALF,
        ),
    );
    let pixel_x = viewport_x.scale(viewport_width).div(float_of_u32(width));
    let pixel_y = viewport_y.scale(viewport_height).div(float_of_u32(height));
    let first_ray = viewport_upper_left.add(&pixel_x.add(&pixel_y).scale(BITS_HALF));

    let mut rays: Vec<Ray> = Vec::new();
    let mut y: u32 = 0;
    while y < height
        invariant
            width >= 1,
            height >= 1,
            width as int * height as int <= u32::MAX,
            y <= height,
            rays@.len() == y as int * width as int,
            pixel_x == spec_pixel_x(viewport_height, up, width, height),
            pixel_y == spec_pixel_y(viewport_height, up, width, height),
            first_ray == spec_first_ray(camera_focal_length, viewport_height, up, width, height),
            forall|i: int|
                0 <= i < rays@.len() ==> #[trigger] rays@[i] == (Ray {
                    sample_centre: spec_vec3_extend(
                        spec_ray_centre(
                            camera_focal_length,
                            viewport_height,
                            up,
                            width,
                            height,
                            (i % (width as int)) as u32,
                            (i / (width as int)) as u32,
                        ),
                    ),
                }),
        decreases height - y,
    {
        let yf = float_of_u32(y);
        let mut x: u32 = 0;
        while x < width
            invariant
                width >= 1,
                height >= 1,
                width as int * height as int <= u32::MAX,
                y < height,
                x <= width,
                yf == bits_of_u32(y),
                rays@.len() == y as int * width as int + x as int,
                pixel_x == spec_pixel_x(viewport_height, up, width, height),
                pixel_y == spec_pixel_y(viewport_height, up, width, height),
                first_ray == spec_first_ray(
                    camera_focal_length,
                    viewport_height,
                    up,
                    width,
                    height,
                ),
                forall|i: int|
                    0 <= i < rays@.len() ==> #[trigger] rays@[i] == (Ray {
                        sample_centre: spec_vec3_extend(
                            spec_ray_centre(
                                camera_focal_length,
                                viewport_height,
                                up,
                                width,
                                height,
                                (i % (width as int)) as u32,
                                (i / (width as int)) as u32,
                            ),
                        ),
                    }),
            decreases width - x,
        {
            proof {
                assert((y as int) * (width as int) + (x as int) < (width as int) * (height
                    as int)) by (nonlinear_arith)
                    requires
                        0 <= x < width,
                        0 <= y < height,
                ;
            }
            let ray_pos = first_ray.add(&pixel_x.scale(float_of_u32(x))).add(
                &pixel_y.scale(yf),
            );
            rays.push(Ray { sample_centre: ray_pos.extend() });
            proof {
                lemma_fundamental_div_mod_converse(
                    y as int * width as int + x as int,
                    width as int,
                    y as int,
                    x as int,
                );
            }
            x = x + 1;
        }
        proof {
            assert(((y as int) + 1) * (width as int) == (y as int) * (width as int) + (width
                as int)) by (nonlinear_arith);
        }
        y = y + 1;
    }
    proof {
        assert((width as int) * (height as int) == (height as int) * (width as int)) by (
        nonlinear_arith);
    }
    (rays, width * height)
}

} // verus!
