//! The present stage: blitting the accumulated image over the display
//! target through a textured screen quad. Trivial by design; it only
//! contributes the quad geometry and one more link in the per-frame
//! completion chain.

use vstd::prelude::*;
use crate::fbits::{div_bits, neg_bits, BITS_ZERO, BITS_ONE, BITS_TWO, float_div, float_neg};
use crate::sync::CompletionToken;
use crate::vector::Vector2;

verus! {

/// One vertex of the screen quad: a plane position and its texture
/// coordinates.
#[derive(Clone, Copy, Debug, PartialEq, Eq, Structural)]
pub struct TexturedVertex {
    pub position: Vector2,
    pub tex_coords: Vector2,
}

/// The vertices of a quad of the given extent, centred on the origin,
/// with the full texture mapped onto it.
pub open spec fn spec_quad_vertices(width: u32, height: u32) -> Seq<TexturedVertex> {
    let half_w = div_bits(width, BITS_TWO);
    let half_h = div_bits(height, BITS_TWO);
    seq![
        TexturedVertex {
            position: Vector2 { x: neg_bits(half_w), y: neg_bits(half_h) },
            tex_coords: Vector2 { x: BITS_ZERO, y: BITS_ONE },
        },
        TexturedVertex {
            position: Vector2 { x: neg_bits(half_w), y: half_h },
            tex_coords: Vector2 { x: BITS_ZERO, y: BITS_ZERO },
        },
        TexturedVertex {
            position: Vector2 { x: half_w, y: half_h },
            tex_coords: Vector2 { x: BITS_ONE, y: BITS_ZERO },
        },
        TexturedVertex {
            position: Vector2 { x: half_w, y: neg_bits(half_h) },
            tex_coords: Vector2 { x: BITS_ONE, y: BITS_ONE },
        },
    ]
}

/// A quad of the given extent as two counter-clockwise triangles.
pub fn textured_quad(width: u32, height: u32) -> (r: (Vec<TexturedVertex>, Vec<u32>))
    ensures
        r.0@ == spec_quad_vertices(width, height),
        r.1@ == seq![0u32, 2u32, 1u32, 0u32, 3u32, 2u32],
{
    let half_w = float_div(width, BITS_TWO);
    let half_h = float_div(height, BITS_TWO);
    let vertices: Vec<TexturedVertex> = vec![
        TexturedVertex {
            position: Vector2 { x: float_neg(half_w), y: float_neg(half_h) },
            tex_coords: Vector2 { x: BITS_ZERO, y: BITS_ONE },
        },
        TexturedVertex {
            position: Vector2 { x: float_neg(half_w), y: half_h },
            tex_coords: Vector2 { x: BITS_ZERO, y: BITS_ZERO },
        },
        TexturedVertex {
            position: Vector2 { x: half_w, y: half_h },
            tex_coords: Vector2 { x: BITS_ONE, y: BITS_ZERO },
        },
        TexturedVertex {
            position: Vector2 { x: half_w, y: float_neg(half_h) },
            tex_coords: Vector2 { x: BITS_ONE, y: BITS_ONE },
        },
    ];
    let indices: Vec<u32> = vec![0u32, 2u32, 1u32, 0u32, 3u32, 2u32];
    proof {
        assert(vertices@ =~= spec_quad_vertices(width, height));
        assert(indices@ =~= seq![0u32, 2u32, 1u32, 0u32, 3u32, 2u32]);
    }
    (vertices, indices)
}

/// Draws a sampled source image over a quad spanning the whole target.
pub struct PixelDrawPipeline {
    pub vertices: Vec<TexturedVertex>,
    pub indices: Vec<u32>,
}

impl PixelDrawPipeline {
    /// The quad spans coordinates -1 to 1 in both axes.
    pub fn new() -> (r: PixelDrawPipeline)
        ensures
            r.vertices@ == spec_quad_vertices(BITS_TWO, BITS_TWO),
            r.indices@ == seq![0u32, 2u32, 1u32, 0u32, 3u32, 2u32],
    {
        let (vertices, indices) = textured_quad(BITS_TWO, BITS_TWO);
        PixelDrawPipeline { vertices, indices }
    }
}

/// Places the accumulated view exactly over the display target, as the
/// last stage of a frame's completion chain.
pub struct RenderPassOverFrame {
    pub pixels_draw_pipeline: PixelDrawPipeline,
}

impl RenderPassOverFrame {
    pub fn new() -> (r: RenderPassOverFrame)
        ensures
            r.pixels_draw_pipeline.vertices@ == spec_quad_vertices(BITS_TWO, BITS_TWO),
            r.pixels_draw_pipeline.indices@ == seq![0u32, 2u32, 1u32, 0u32, 3u32, 2u32],
    {
        RenderPassOverFrame { pixels_draw_pipeline: PixelDrawPipeline::new() }
    }

    /// One present pass, chained after the blend: callers must not reuse
    /// the display target before the returned token resolves.
    pub fn render(&self, before: CompletionToken) -> (r: CompletionToken)
        requires
            before.id < u64::MAX,
        ensures
            r.id == before.id + 1,
    {
        before.next()
    }
}

} // verus!
