//! GPU glyph renderer core: a two-pass multisample-coverage rasterizer for
//! quadratic Bezier glyph outlines.
//!
//! This crate holds the verified logic of the renderer: the key-invalidated
//! resource caches, the fixed GPU record layouts and their byte encodings,
//! the pipeline configuration, the exact per-frame coordinate arithmetic,
//! and the per-frame orchestration that turns a list of glyph outlines into
//! a script of buffer writes and draw calls. An embedder executes that
//! script against a real GPU device; the renderer itself never touches one.

pub mod cached;
pub mod pipelines;
pub mod ratio;
pub mod renderer;
pub mod structs;

pub use renderer::{DrawParams, DrawResult, Glyph, Renderer};
