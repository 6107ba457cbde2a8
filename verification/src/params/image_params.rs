use vstd::prelude::*;

use crate::float_bits::FloatBits;
use crate::params::gen_params::{field_count, field_real, field_seed, field_text};
use crate::sdapi::common::clone_opt_string;
use crate::sdapi::response::ImgInfo;
use crate::workflow::access::Field;
use crate::workflow::prompt::Prompt;

verus! {

/// The parameters that describe a generated image, as the back end reports
/// them.
#[derive(Debug, PartialEq)]
pub enum ImageParams {
    /// The workflow ComfyUI ran.
    Comfy(Prompt),
    /// The information the web UI returned.
    WebUi(ImgInfo),
}

/// An `i32` as a `u32`, as Rust's `as` converts it.
pub open spec fn as_u32(v: Option<i32>) -> Option<u32> {
    match v {
        Some(x) => Some(x as u32),
        None => None,
    }
}

fn i32_as_u32(v: Option<i32>) -> (r: Option<u32>)
    ensures
        r == as_u32(v),
{
    match v {
        Some(x) => Some(x as u32),
        None => None,
    }
}

impl ImageParams {
    /// The seed.
    pub open spec fn spec_seed(self) -> Option<i64> {
        match self {
            ImageParams::Comfy(p) => field_seed(p@, Field::Seed),
            ImageParams::WebUi(i) => i.seed,
        }
    }

    /// The seed.
    pub fn seed(&self) -> (r: Option<i64>)
        ensures
            r == self.spec_seed(),
    {
        match self {
            ImageParams::Comfy(p) => p.get_seed(Field::Seed).ok(),
            ImageParams::WebUi(i) => i.seed,
        }
    }

    /// The number of steps.
    pub open spec fn spec_steps(self) -> Option<u32> {
        match self {
            ImageParams::Comfy(p) => field_count(p@, Field::Steps),
            ImageParams::WebUi(i) => i.steps,
        }
    }

    /// The number of steps.
    pub fn steps(&self) -> (r: Option<u32>)
        ensures
            r == self.spec_steps(),
    {
        match self {
            ImageParams::Comfy(p) => p.get_count(Field::Steps).ok(),
            ImageParams::WebUi(i) => i.steps,
        }
    }

    /// The CFG scale.
    pub open spec fn spec_cfg(self) -> Option<FloatBits> {
        match self {
            ImageParams::Comfy(p) => field_real(p@, Field::Cfg),
            ImageParams::WebUi(i) => i.cfg_scale,
        }
    }

    /// The CFG scale.
    pub fn cfg(&self) -> (r: Option<FloatBits>)
        ensures
            r == self.spec_cfg(),
    {
        match self {
            ImageParams::Comfy(p) => p.get_real(Field::Cfg).ok(),
            ImageParams::WebUi(i) => i.cfg_scale,
        }
    }

    /// The image width.
    pub open spec fn spec_width(self) -> Option<u32> {
        match self {
            ImageParams::Comfy(p) => field_count(p@, Field::Width),
            ImageParams::WebUi(i) => as_u32(i.width),
        }
    }

    /// The image width.
    pub fn width(&self) -> (r: Option<u32>)
        ensures
            r == self.spec_width(),
    {
        match self {
            ImageParams::Comfy(p) => p.get_count(Field::Width).ok(),
            ImageParams::WebUi(i) => i32_as_u32(i.width),
        }
    }

    /// The image height.
    pub open spec fn spec_height(self) -> Option<u32> {
        match self {
            ImageParams::Comfy(p) => field_count(p@, Field::Height),
            ImageParams::WebUi(i) => as_u32(i.height),
        }
    }

    /// The image height.
    pub fn height(&self) -> (r: Option<u32>)
        ensures
            r == self.spec_height(),
    {
        match self {
            ImageParams::Comfy(p) => p.get_count(Field::Height).ok(),
            ImageParams::WebUi(i) => i32_as_u32(i.height),
        }
    }

    /// The prompt.
    pub open spec fn spec_prompt(self) -> Option<String> {
        match self {
            ImageParams::Comfy(p) => field_text(p@, Field::Prompt),
            ImageParams::WebUi(i) => i.prompt,
        }
    }

    /// The prompt.
    pub fn prompt(&self) -> (r: Option<String>)
        ensures
            r == self.spec_prompt(),
    {
        match self {
            ImageParams::Comfy(p) => p.get_text(Field::Prompt).ok(),
            ImageParams::WebUi(i) => clone_opt_string(&i.prompt),
        }
    }

    /// The negative prompt.
    pub open spec fn spec_negative_prompt(self) -> Option<String> {
        match self {
            ImageParams::Comfy(p) => field_text(p@, Field::NegativePrompt),
            ImageParams::WebUi(i) => i.negative_prompt,
        }
    }

    /// The negative prompt.
    pub fn negative_prompt(&self) -> (r: Option<String>)
        ensures
            r == self.spec_negative_prompt(),
    {
        match self {
            ImageParams::Comfy(p) => p.get_text(Field::NegativePrompt).ok(),
            ImageParams::WebUi(i) => clone_opt_string(&i.negative_prompt),
        }
    }

    /// The denoising strength.
    pub open spec fn spec_denoising(self) -> Option<FloatBits> {
        match self {
            ImageParams::Comfy(p) => field_real(p@, Field::Denoise),
            ImageParams::WebUi(i) => i.denoising_strength,
        }
    }

    /// The denoising strength.
    pub fn denoising(&self) -> (r: Option<FloatBits>)
        ensures
            r == self.spec_denoising(),
    {
        match self {
            ImageParams::Comfy(p) => p.get_real(Field::Denoise).ok(),
            ImageParams::WebUi(i) => i.denoising_strength,
        }
    }

    /// The model.
    pub open spec fn spec_model(self) -> Option<String> {
        match self {
            ImageParams::Comfy(p) => field_text(p@, Field::Model),
            ImageParams::WebUi(i) => i.sd_model_name,
        }
    }

    /// The model.
    pub fn model(&self) -> (r: Option<String>)
        ensures
            r == self.spec_model(),
    {
        match self {
            ImageParams::Comfy(p) => p.get_text(Field::Model).ok(),
            ImageParams::WebUi(i) => clone_opt_string(&i.sd_model_name),
        }
    }

    /// The sampler.
    pub open spec fn spec_sampler(self) -> Option<String> {
        match self {
            ImageParams::Comfy(p) => field_text(p@, Field::Sampler),
            ImageParams::WebUi(i) => i.sampler_name,
        }
    }

    /// The sampler.
    pub fn sampler(&self) -> (r: Option<String>)
        ensures
            r == self.spec_sampler(),
    {
        match self {
            ImageParams::Comfy(p) => p.get_text(Field::Sampler).ok(),
            ImageParams::WebUi(i) => clone_opt_string(&i.sampler_name),
        }
    }
}

} // verus!
