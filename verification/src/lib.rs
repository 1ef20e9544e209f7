//! Decision logic of an atlas-backed text renderer.
//!
//! A renderer of this kind draws text as one textured quad per glyph. The
//! glyph coverage lives in a single atlas texture that grows on demand, and the
//! quads live in a vertex buffer that is reused from frame to frame. This crate
//! holds the rules of that pipeline, stated and proved over plain values: how
//! the atlas grows, how a frame reacts to what the glyph cache reports, when
//! the vertex buffer is reallocated, and how a vertex record is laid out.
//! Calls into the graphics context are left to the caller.

pub mod atlas;
pub mod buffer;
pub mod cache;
pub mod frame;
pub mod layout;
pub mod pipeline;
