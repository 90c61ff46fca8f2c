//! A verified core for a single-triangle WebGL 2 animation.
//!
//! The library owns the fixed shader sources, the fixed triangle mesh, the
//! construction sequence that turns a canvas element id into a ready shader
//! pipeline, and the per-frame command plan that drives the time uniform.
//! The calls into the browser's GPU binding go through small trusted
//! wrappers; everything decided on this side of those calls is verified.

pub mod errors;
pub mod geometry;
pub mod shaders;
pub mod frame;
pub mod outcomes;
pub mod webgl;
pub mod canvas;
