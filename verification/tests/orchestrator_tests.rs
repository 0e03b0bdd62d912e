use raytracer_core::camera::Camera;
use raytracer_core::lights::{Light, LightRecord, pack_lights};
use raytracer_core::app_loop::{FrameSequencer, TickAction};
use raytracer_core::materials::Material;
use raytracer_core::objects::{Mesh, RayTracingMesh, Sphere};
use raytracer_core::orchestrator::{DescriptorKind, RayTracePipeline, RayTracerSettings};
use raytracer_core::present::{RenderPassOverFrame, textured_quad};
use raytracer_core::sync::CompletionToken;
use raytracer_core::vector::{Vector2, Vector3};

fn v3(x: f32, y: f32, z: f32) -> Vector3 {
    Vector3 { x: x.to_bits(), y: y.to_bits(), z: z.to_bits() }
}

fn grey() -> raytracer_core::materials::RayTracingMaterial {
    Material::Lambertian { colour: v3(0.5, 0.5, 0.5) }.to_record()
}

fn test_settings() -> RayTracerSettings {
    RayTracerSettings {
        sample_settings: (0.001f32.to_bits(), 16, 8, true),
        sphere_data: vec![Sphere {
            centre: v3(0.0, 0.0, 2.0),
            radius: 1.0f32.to_bits(),
            material: grey(),
        }],
        mesh_data: vec![RayTracingMesh {
            mesh: Mesh::new(
                vec![v3(0.0, 0.0, 0.0), v3(1.0, 0.0, 0.0), v3(0.0, 1.0, 0.0)],
                vec![0u32, 1, 2],
            ),
            material: grey(),
        }],
        camera_focal_length: 1.0f32.to_bits(),
        viewport_height: 2.0f32.to_bits(),
        up: v3(0.0, 1.0, 0.0),
    }
}

#[test]
fn pipeline_buffers_and_counts() {
    let p = RayTracePipeline::new([800, 600], test_settings());
    assert_eq!((p.width, p.height), (800, 600));
    assert_eq!(p.ray_count, 480000);
    assert_eq!(p.rays.len(), 480000);
    assert_eq!(p.sphere_count, 1);
    assert_eq!(p.mesh_count, 1);
    assert_eq!(p.triangles.len(), 1);
    assert_eq!(p.num_samples, 16);
    assert_eq!(p.max_bounces, 8);
    assert!(p.use_environment_lighting);
}

#[test]
fn compute_packs_parameter_block_and_grid() {
    let p = RayTracePipeline::new([800, 600], test_settings());
    let camera = Camera::new(Some(v3(1.0, 2.0, 3.0)), None, None, None);
    let before = CompletionToken::initial();
    let (after, d) = p.compute(before, &camera, 42);
    assert_eq!(after.id, 1);
    let pc = d.push_constants;
    assert_eq!(
        (f32::from_bits(pc.cam_pos.x), f32::from_bits(pc.cam_pos.y), f32::from_bits(pc.cam_pos.z)),
        (1.0, 2.0, 3.0)
    );
    assert_eq!(pc.num_rays, 480000);
    assert_eq!(pc.num_spheres, 1);
    assert_eq!(pc.num_meshes, 1);
    assert_eq!(pc.num_samples, 16);
    assert_eq!(pc.jitter_size, 0.001f32.to_bits());
    assert_eq!(pc.max_bounces, 8);
    assert_eq!(pc.use_environment_light, 1);
    assert_eq!(pc.rng_offset, 42);
    assert_eq!(pc.init, 0);
    assert_eq!((pc.width, pc.height), (800, 600));
    // ceil(800/32) x ceil(600/32)
    assert_eq!((d.group_x, d.group_y, d.group_z), (25, 19, 1));
}

#[test]
fn init_clears_instead_of_tracing() {
    let p = RayTracePipeline::new([33, 32], test_settings());
    let (after, d) = p.init(CompletionToken::initial());
    assert_eq!(after.id, 1);
    assert_eq!(d.push_constants.init, 1);
    assert_eq!(d.push_constants.rng_offset, 0);
    // the init pass still covers every pixel
    assert_eq!((d.group_x, d.group_y, d.group_z), (2, 1, 1));
}

#[test]
fn degenerate_scene_still_dispatches_with_sentinels() {
    let mut settings = test_settings();
    settings.sphere_data = Vec::new();
    settings.mesh_data = Vec::new();
    let p = RayTracePipeline::new([64, 64], settings);
    assert_eq!(p.sphere_count, 0);
    assert_eq!(p.spheres.len(), 1);
    assert_eq!(p.mesh_count, 0);
    assert_eq!(p.triangles.len(), 1);
    assert_eq!(p.mesh_descriptors.len(), 1);
    let (_t, d) = p.compute(CompletionToken::initial(), &Camera::new(None, None, None, None), 0);
    assert_eq!((d.group_x, d.group_y), (2, 2));
    assert_eq!(d.push_constants.num_spheres, 0);
    assert_eq!(d.push_constants.num_meshes, 0);
}

#[test]
fn pipeline_layout_matches_kernel_interface() {
    let l = RayTracePipeline::pipeline_layout();
    assert_eq!(l.push_constant_size, 124);
    assert_eq!(l.bindings.len(), 5);
    assert_eq!(l.bindings[0], DescriptorKind::StorageImage);
    for slot in 1..5 {
        assert_eq!(l.bindings[slot], DescriptorKind::StorageBuffer);
    }
}

#[test]
fn sequencer_gates_on_minimum_frame_time() {
    let mut s = FrameSequencer::new(16000);
    assert_eq!(s.tick(false, 5000), TickAction::Skip);
    assert_eq!(s.tick(false, 15999), TickAction::Skip);
    let a = s.tick(false, 16000);
    assert_eq!(a, TickAction::Render { reset: false, frame_index: 0, rng_offset: 0 });
}

#[test]
fn sequencer_resets_on_the_very_tick_of_a_move() {
    let mut s = FrameSequencer::new(0);
    s.tick(false, 1);
    s.tick(false, 1);
    let a = s.tick(true, 1);
    // the reset takes effect on this frame, not one frame late
    assert_eq!(a, TickAction::Render { reset: true, frame_index: 0, rng_offset: 2 });
    let b = s.tick(false, 1);
    assert_eq!(b, TickAction::Render { reset: false, frame_index: 1, rng_offset: 3 });
}

#[test]
fn sequencer_remembers_moves_seen_while_skipping() {
    let mut s = FrameSequencer::new(100);
    s.tick(false, 100);
    s.tick(false, 100);
    // a move arrives on a gated-out tick
    assert_eq!(s.tick(true, 10), TickAction::Skip);
    let a = s.tick(false, 100);
    assert_eq!(a, TickAction::Render { reset: true, frame_index: 0, rng_offset: 2 });
}

#[test]
fn rng_offsets_never_repeat_across_resets() {
    let mut s = FrameSequencer::new(0);
    let mut seen = Vec::new();
    for moved in [false, true, false, true, true, false] {
        if let TickAction::Render { rng_offset, .. } = s.tick(moved, 1) {
            seen.push(rng_offset);
        }
    }
    for w in seen.windows(2) {
        assert!(w[0] < w[1]);
    }
}

#[test]
fn textured_quad_spans_requested_extent() {
    let (vertices, indices) = textured_quad(2.0f32.to_bits(), 2.0f32.to_bits());
    assert_eq!(indices, vec![0, 2, 1, 0, 3, 2]);
    assert_eq!(vertices.len(), 4);
    let p = |i: usize| {
        (
            f32::from_bits(vertices[i].position.x),
            f32::from_bits(vertices[i].position.y),
        )
    };
    assert_eq!(p(0), (-1.0, -1.0));
    assert_eq!(p(1), (-1.0, 1.0));
    assert_eq!(p(2), (1.0, 1.0));
    assert_eq!(p(3), (1.0, -1.0));
    assert_eq!(vertices[0].tex_coords, Vector2 { x: 0, y: 1.0f32.to_bits() });
    assert_eq!(vertices[2].tex_coords, Vector2 { x: 1.0f32.to_bits(), y: 0 });
}

#[test]
fn frame_chain_is_strictly_ordered() {
    let p = RayTracePipeline::new([16, 16], test_settings());
    let present = RenderPassOverFrame::new();
    let t0 = CompletionToken::initial();
    let (t1, _trace) = p.compute(t0, &Camera::new(None, None, None, None), 7);
    let mut combiner = raytracer_core::accumulate::ImageCombiner::new([16, 16]);
    let raw = raytracer_core::accumulate::RawImage {
        width: 16,
        height: 16,
        pixels: vec![raytracer_core::accumulate::Pixel { r: 0, g: 0, b: 0, a: 0 }; 256],
    };
    let (t2, _blend) = combiner.next_frame(&raw, t1);
    let t3 = present.render(t2);
    assert!(t0.id < t1.id && t1.id < t2.id && t2.id < t3.id);
}

#[test]
fn lights_pack_into_fixed_block_of_four() {
    let lights = vec![
        Light { pos: v3(1.0, 0.0, 0.0), strength: 5.0f32.to_bits(), colour: v3(1.0, 1.0, 1.0) },
        Light { pos: v3(0.0, 2.0, 0.0), strength: 3.0f32.to_bits(), colour: v3(1.0, 0.0, 0.0) },
    ];
    let packed = pack_lights(&lights);
    assert_eq!(packed.len(), 4);
    assert_eq!(packed[0].position, v3(1.0, 0.0, 0.0));
    assert_eq!(packed[0].intensity, 5.0f32.to_bits());
    assert_eq!(packed[1].colour, v3(1.0, 0.0, 0.0));
    assert_eq!(packed[2], LightRecord::default());
    assert_eq!(packed[3], LightRecord::default());
    // a fifth light is dropped
    let five = pack_lights(&vec![lights[0]; 5]);
    assert_eq!(five.len(), 4);
}
