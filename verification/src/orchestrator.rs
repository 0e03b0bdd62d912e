//! The trace-pass orchestrator: it owns the GPU-facing scene and ray
//! buffers and, once per displayed frame, produces the one dispatch record
//! that covers every pixel, chained on the previous stage's completion
//! token.

use vstd::prelude::*;
use crate::camera::{Camera, Matrix4, spec_alignment, spec_default_camera, compute_alignment};
use crate::objects::{Sphere, RayTracingMesh};
use crate::rays::{Ray, rays_correct, generate_rays};
use crate::scene::{
    GpuSphere, GpuTriangle, GpuMeshDescriptor, all_meshes_valid, prefix_tris,
    sphere_buffer_correct, mesh_buffer_correct, build_sphere_buffer, build_mesh_buffer,
};
use crate::sync::CompletionToken;
use crate::vector::{Vector3, Vector4, spec_vec3_extend};

verus! {

/// What the trace pipeline was created with.
pub struct RayTracerSettings {
    /// Jitter magnitude pattern, samples per pixel, maximum bounce count,
    /// and whether the environment lights the scene.
    pub sample_settings: (u32, u32, u32, bool),
    pub sphere_data: Vec<Sphere>,
    pub mesh_data: Vec<RayTracingMesh>,
    pub camera_focal_length: u32,
    pub viewport_height: u32,
    pub up: Vector3,
}

/// What one binding slot of the trace kernel holds.
#[derive(Clone, Copy, Debug, PartialEq, Eq, Structural)]
pub enum DescriptorKind {
    StorageImage,
    StorageBuffer,
}

/// The kernel's binding table layout and push-constant size, all slots
/// visible to the compute stage.
pub struct PipelineLayoutInfo {
    pub bindings: Vec<DescriptorKind>,
    pub push_constant_size: u32,
}

/// The fixed parameter block of one trace dispatch.
#[derive(Clone, Copy, Debug, PartialEq, Eq, Structural)]
pub struct TracePushConstants {
    pub cam_pos: Vector4,
    pub cam_alignment_mat: Matrix4,
    pub num_rays: u32,
    pub num_spheres: u32,
    pub num_meshes: u32,
    pub num_samples: u32,
    pub jitter_size: u32,
    pub max_bounces: u32,
    pub use_environment_light: u32,
    pub rng_offset: u32,
    pub init: u32,
    pub width: u32,
    pub height: u32,
}

/// One trace dispatch: its parameter block and its two-dimensional
/// workgroup grid covering every pixel in tiles of 32 by 32.
#[derive(Clone, Copy, Debug, PartialEq, Eq, Structural)]
pub struct TraceDispatch {
    pub push_constants: TracePushConstants,
    pub group_x: u32,
    pub group_y: u32,
    pub group_z: u32,
}

/// The trace pipeline: scene and ray buffers built once, shared read-only
/// by every per-frame dispatch.
pub struct RayTracePipeline {
    pub width: u32,
    pub height: u32,
    pub rays: Vec<Ray>,
    pub ray_count: u32,
    pub spheres: Vec<GpuSphere>,
    pub sphere_count: u32,
    pub triangles: Vec<GpuTriangle>,
    pub mesh_descriptors: Vec<GpuMeshDescriptor>,
    pub mesh_count: u32,
    pub jitter_size: u32,
    pub num_samples: u32,
    pub max_bounces: u32,
    pub use_environment_lighting: bool,
}

/// The dispatch record of one trace pass over the whole image.
pub open spec fn spec_trace_dispatch(
    p: RayTracePipeline,
    camera: Camera,
    rng_offset: u32,
    init: bool,
) -> TraceDispatch {
    TraceDispatch {
        push_constants: TracePushConstants {
            cam_pos: spec_vec3_extend(camera.position),
            cam_alignment_mat: spec_alignment(camera),
            num_rays: p.ray_count,
            num_spheres: p.sphere_count,
            num_meshes: p.mesh_count,
            num_samples: p.num_samples,
            jitter_size: p.jitter_size,
            max_bounces: p.max_bounces,
            use_environment_light: if p.use_environment_lighting {
                1u32
            } else {
                0u32
            },
            rng_offset: rng_offset,
            init: if init {
                1u32
            } else {
                0u32
            },
            width: p.width,
            height: p.height,
        },
        group_x: (((p.width - 1) as int / 32) + 1) as u32,
        group_y: (((p.height - 1) as int / 32) + 1) as u32,
        group_z: 1,
    }
}

impl RayTracePipeline {
    /// The pipeline covers a real image.
    pub open spec fn wf(&self) -> bool {
        1 <= self.width && 1 <= self.height
    }

    /// Builds the pipeline's buffers from the settings: the per-pixel ray
    /// samples, the sphere records, and the flattened mesh triangles with
    /// their descriptors. Degenerate (empty) scene collections are
    /// replaced by one sentinel entry each and never skip anything.
    pub fn new(image_size: [u32; 2], settings: RayTracerSettings) -> (r: RayTracePipeline)
        requires
            1 <= image_size[0],
            1 <= image_size[1],
            image_size[0] as int * image_size[1] as int <= u32::MAX,
            all_meshes_valid(settings.mesh_data@),
            prefix_tris(settings.mesh_data@, settings.mesh_data@.len() as int) <= u32::MAX,
            settings.sphere_data@.len() <= u32::MAX,
            settings.mesh_data@.len() <= u32::MAX,
        ensures
            r.wf(),
            r.width == image_size[0],
            r.height == image_size[1],
            rays_correct(
                r.rays@,
                r.ray_count,
                image_size[0],
                image_size[1],
                settings.camera_focal_length,
                settings.viewport_height,
                settings.up,
            ),
            sphere_buffer_correct(r.spheres@, r.sphere_count, settings.sphere_data@),
            mesh_buffer_correct(
                r.triangles@,
                r.mesh_descriptors@,
                r.mesh_count,
                settings.mesh_data@,
            ),
            r.jitter_size == settings.sample_settings.0,
            r.num_samples == settings.sample_settings.1,
            r.max_bounces == settings.sample_settings.2,
            r.use_environment_lighting == settings.sample_settings.3,
    {
        let (rays, ray_count) = generate_rays(
            image_size,
            settings.camera_focal_length,
            settings.viewport_height,
            settings.up,
        );
        let (spheres, sphere_count) = build_sphere_buffer(&settings.sphere_data);
        let (triangles, mesh_descriptors, mesh_count) = build_mesh_buffer(&settings.mesh_data);
        RayTracePipeline {
            width: image_size[0],
            height: image_size[1],
            rays,
            ray_count,
            spheres,
            sphere_count,
            triangles,
            mesh_descriptors,
            mesh_count,
            jitter_size: settings.sample_settings.0,
            num_samples: settings.sample_settings.1,
            max_bounces: settings.sample_settings.2,
            use_environment_lighting: settings.sample_settings.3,
        }
    }

    /// The binding table the kernel is dispatched with — the output image,
    /// then the ray, sphere, triangle and mesh-descriptor buffers — and
    /// the byte size of its parameter block.
    pub fn pipeline_layout() -> (l: PipelineLayoutInfo)
        ensures
            l.bindings@ == seq![
                DescriptorKind::StorageImage,
                DescriptorKind::StorageBuffer,
                DescriptorKind::StorageBuffer,
                DescriptorKind::StorageBuffer,
                DescriptorKind::StorageBuffer,
            ],
            l.push_constant_size == 124,
    {
        let mut bindings: Vec<DescriptorKind> = Vec::new();
        bindings.push(DescriptorKind::StorageImage);
        bindings.push(DescriptorKind::StorageBuffer);
        bindings.push(DescriptorKind::StorageBuffer);
        bindings.push(DescriptorKind::StorageBuffer);
        bindings.push(DescriptorKind::StorageBuffer);
        let push_constant_size: u32 = 4 * 4  // camera position
             + 4 * 16  // camera alignment matrix
             + 4  // ray count
             + 4  // sphere count
             + 4  // mesh count
             + 4  // samples per pixel
             + 4  // jitter magnitude
             + 4  // maximum bounces
             + 4  // environment-lighting flag
             + 4  // random-seed offset
             + 4  // init flag
             + 4  // width
             + 4;  // height
        proof {
            assert(bindings@ =~= seq![
                DescriptorKind::StorageImage,
                DescriptorKind::StorageBuffer,
                DescriptorKind::StorageBuffer,
                DescriptorKind::StorageBuffer,
                DescriptorKind::StorageBuffer,
            ]);
        }
        PipelineLayoutInfo { bindings, push_constant_size }
    }

    /// The dispatch record of one pass: parameter block and workgroup
    /// grid.
    fn dispatch(&self, camera: &Camera, rng_offset: u32, init: bool) -> (d: TraceDispatch)
        requires
            self.wf(),
        ensures
            d == spec_trace_dispatch(*self, *camera, rng_offset, init),
    {
        let alignment = compute_alignment(camera);
        TraceDispatch {
            push_constants: TracePushConstants {
                cam_pos: camera.position.extend(),
                cam_alignment_mat: alignment,
                num_rays: self.ray_count,
                num_spheres: self.sphere_count,
                num_meshes: self.mesh_count,
                num_samples: self.num_samples,
                jitter_size: self.jitter_size,
                max_bounces: self.max_bounces,
                use_environment_light: if self.use_environment_lighting {
                    1
                } else {
                    0
                },
                rng_offset,
                init: if init {
                    1
                } else {
                    0
                },
                width: self.width,
                height: self.height,
            },
            group_x: (self.width - 1) / 32 + 1,
            group_y: (self.height - 1) / 32 + 1,
            group_z: 1,
        }
    }

    /// One trace pass for the camera's current pose. The random-seed
    /// offset must differ every frame; callers must not read the output
    /// image before the returned token resolves.
    pub fn compute(&self, before: CompletionToken, camera: &Camera, rng_offset: u32) -> (r: (
        CompletionToken,
        TraceDispatch,
    ))
        requires
            self.wf(),
            before.id < u64::MAX,
        ensures
            r.0.id == before.id + 1,
            r.1 == spec_trace_dispatch(*self, *camera, rng_offset, false),
    {
        let d = self.dispatch(camera, rng_offset, false);
        (before.next(), d)
    }

    /// The one startup pass before the first real frame: the init flag is
    /// set, so the kernel clears the image to black instead of tracing.
    pub fn init(&self, before: CompletionToken) -> (r: (CompletionToken, TraceDispatch))
        requires
            self.wf(),
            before.id < u64::MAX,
        ensures
            r.0.id == before.id + 1,
            r.1 == spec_trace_dispatch(*self, spec_default_camera(), 0, true),
    {
        let camera = Camera::new(None, None, None, None);
        let d = self.dispatch(&camera, 0, true);
        (before.next(), d)
    }
}

} // verus!
