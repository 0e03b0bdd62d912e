//! Core of an interactive, progressive path tracer.
//!
//! The library converts authoring-level scene data (spheres, triangle
//! meshes, materials) into the flat buffer layouts a GPU trace kernel
//! consumes, computes per-frame camera transforms and ray sample points,
//! sequences the per-frame dispatches with explicit completion tokens, and
//! maintains the progressive-refinement (accumulation) state across frames.
//!
//! Scalar values that the GPU sees as IEEE-754 single-precision floats are
//! carried everywhere as their 32-bit patterns (`u32`), so every structural
//! computation on them is exact; the handful of rounding arithmetic
//! operations go through a software floating-point implementation behind
//! narrow trusted wrappers.

pub mod accumulate;
pub mod app_loop;
pub mod camera;
pub mod fbits;
pub mod icosphere;
pub mod lights;
pub mod materials;
pub mod objects;
pub mod orchestrator;
pub mod present;
pub mod rays;
pub mod scene;
pub mod sync;
pub mod vector;
