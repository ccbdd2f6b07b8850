//! GPU-resident buffers: geometry streams and mirrored uniform values.

pub mod geometry;
pub mod uniform;
