//! Verified preparation logic for a small OpenGL viewer: vertex layouts,
//! mesh assembly, texture decoding, and the protocols that drive shader
//! builds and the frame loop. Everything that talks to the GPU or the
//! window system lives outside this crate and is steered by the state
//! machines defined here.

pub mod buffers;
pub mod mesh;
pub mod session;
pub mod shader;
pub mod texture;
