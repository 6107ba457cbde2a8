//! Verified core of a Telegram bot that drives Stable Diffusion back ends
//! (the Stable Diffusion web UI and ComfyUI).

pub mod float_bits;
pub mod numbers;
pub mod text;
pub mod workflow;
pub mod comfy;
pub mod sdapi;
pub mod params;
pub mod bot;
pub mod laws;
