//! The material pipelines: compiled shader + fixed-function state + geometry
//! + binding sets, each able to update and draw itself once per frame.

pub mod material_buffer;
pub mod material_shader;
pub mod unlit_material;
