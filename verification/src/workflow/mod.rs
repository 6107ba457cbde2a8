//! ComfyUI workflows: their nodes, lookups and traversals.

pub mod node;
pub mod prompt;
pub mod graph;
pub mod access;
pub mod ext;
pub mod setter;
pub mod info;
pub mod builder;
pub mod shape;
pub mod field_laws;
pub mod build_laws;
