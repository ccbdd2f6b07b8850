//! A GPU resource-binding and pipeline-orchestration core.
//!
//! The library owns GPU-resident vertex/index/uniform buffers, assembles
//! layout-validated resource binding sets, builds immutable render pipelines
//! and drives the per-frame update / bind / draw sequence. Vertex and uniform
//! data is carried as raw 32-bit words (IEEE-754 bit patterns); the floating
//! point matrix computations themselves are delegated to `glam` behind
//! trusted wrappers whose results are named, never restated.

pub mod binding;
pub mod camera;
pub mod buffers;
pub mod errors;
pub mod geometries;
pub mod gpu;
pub mod math;
pub mod model;
pub mod renderers;
