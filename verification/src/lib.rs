//! A frame-driven render pipeline for one full-screen quad, written without
//! any access to the graphics context.
//!
//! The stages plan the WebGL calls of start-up and of every frame as plain
//! values ([`gl::GlCall`]); the host performs them on its context and hands
//! back what the driver reported ([`gl::GlReply`]). Every decision -- which
//! call comes next, which report is fatal, what a frame's uniforms hold --
//! is taken here and proved against its contract.
//!
//! Frames are drawn directly to the default surface. The off-screen render
//! target is allocated and sized at start-up but never bound while drawing.

pub mod clock;
pub mod error;
pub mod geometry;
pub mod gl;
pub mod session;
pub mod shader;
pub mod draw_stage;
pub mod compute_stage;
