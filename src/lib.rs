//! A textured cursor sprite over a screen framebuffer.
//!
//! `layout` describes the cursor pipeline's vertex format and binding sets,
//! `pipeline` tracks its per-session bindings, and `sprite` builds the quad
//! geometry, with exact texture coordinates, from `geometry`'s types.

pub mod geometry;
pub mod layout;
pub mod pipeline;
pub mod sprite;
