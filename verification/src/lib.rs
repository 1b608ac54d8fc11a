//! Packaging pipeline for freezing a host filesystem subtree into a
//! self-contained binary module: binding-specification parsing, compressed
//! directory mirroring, binding resolution, and the driver configuration for
//! the external pre-initialization engine.

pub mod binding;
pub mod codec;
pub mod mirror;
pub mod pipeline;
