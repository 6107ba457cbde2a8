//! Generation parameters of the image back ends.

pub mod gen_params;
pub mod image_params;
pub mod api;
pub mod apply_laws;
