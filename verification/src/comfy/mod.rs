//! ComfyUI server messages and the following of one prompt's execution.

pub mod models;
pub mod execution;
