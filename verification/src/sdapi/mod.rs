//! Requests and responses of the Stable Diffusion web UI API.

pub mod common;
pub mod encoding;
pub mod txt2img;
pub mod img2img;
pub mod response;
pub mod merge_laws;
