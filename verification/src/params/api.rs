use vstd::prelude::*;

use crate::params::gen_params::{
    applied, clone_opt_bytes, opt_prompt, ComfyParams, GenParams, Img2ImgParams,
    Txt2ImgParams,
};
use crate::sdapi::common::clone_opt_string;
use crate::sdapi::img2img::Img2ImgRequest;
use crate::sdapi::txt2img::Txt2ImgRequest;
use crate::workflow::access::{set_field, Field, SlotValue};
use crate::workflow::ext::LoadImageExt;
use crate::workflow::prompt::{Prompt, WorkflowView};

verus! {

/// Errors of setting up the ComfyUI back end.
#[derive(Debug, PartialEq)]
pub enum ComfyPromptApiError {
    /// Error creating a ComfyUI client.
    CreateClient(String),
}

/// Errors of text-to-image generation.
#[derive(Debug, PartialEq)]
pub enum Txt2ImgApiError {
    /// Prompt was empty.
    EmptyPrompt,
    /// Error running txt2img.
    Txt2Img(String),
    /// Error parsing response.
    ParseResponse(String),
}

/// Errors of image-to-image generation.
#[derive(Debug, PartialEq)]
pub enum Img2ImgApiError {
    /// Prompt was empty.
    EmptyPrompt,
    /// Error running img2img.
    Img2Img(String),
    /// Error parsing response.
    ParseResponse(String),
    /// No image provided.
    NoImage,
    /// Error uploading image.
    UploadImage(String),
}

impl Clone for ComfyParams {
    fn clone(&self) -> (r: Self)
        ensures
            r.same(*self),
    {
        ComfyParams {
            prompt: match &self.prompt {
                Some(p) => Some(p.clone()),
                None => None,
            },
            seed: self.seed,
            steps: self.steps,
            count: self.count,
            cfg: self.cfg,
            width: self.width,
            height: self.height,
            prompt_text: clone_opt_string(&self.prompt_text),
            negative_prompt_text: clone_opt_string(&self.negative_prompt_text),
            denoising: self.denoising,
            sampler: clone_opt_string(&self.sampler),
            batch_size: self.batch_size,
            image: clone_opt_bytes(&self.image),
        }
    }
}

/// Draws a random `i64` with `rand::random`. Trusted for nothing but its
/// type: the value is left free.
#[verifier::external_body]
fn random_i64() -> (r: i64) {
    rand::random::<i64>()
}

/// The absolute value of `v`, wrapping at `i64::MIN` as `i64::abs` does in
/// release builds.
pub open spec fn wrapping_abs(v: i64) -> i64 {
    if v == i64::MIN {
        i64::MIN
    } else if v < 0 {
        (-v) as i64
    } else {
        v
    }
}

/// The seed to generate with: a seed of `-1` stands for a random one, which
/// is the absolute value of the number `draw`; other seeds are kept.
pub open spec fn chosen_seed(seed: Option<i64>, draw: i64) -> Option<i64> {
    if seed == Some(-1i64) {
        Some(wrapping_abs(draw))
    } else {
        seed
    }
}

/// The seed to generate with (see `chosen_seed`).
pub fn choose_seed(seed: Option<i64>, draw: i64) -> (r: Option<i64>)
    ensures
        r == chosen_seed(seed, draw),
{
    match seed {
        Some(-1) => {
            if draw == i64::MIN {
                Some(i64::MIN)
            } else if draw < 0 {
                Some(-draw)
            } else {
                Some(draw)
            }
        },
        _ => seed,
    }
}

/// The workflow to run for parameters `base` with the random number `draw`:
/// the workflow of `base` with its parameters, the chosen seed among them,
/// applied; `None` when `base` has no workflow.
pub open spec fn prompt_to_run(base: ComfyParams, draw: i64) -> Option<WorkflowView> {
    match base.prompt {
        Some(p) => Some(applied(ComfyParams { seed: chosen_seed(base.seed, draw), ..base }, p@)),
        None => None,
    }
}

/// Whether `r` is what a text-to-image request with parameters `base` and
/// the random number `draw` gives: the workflow to run and the parameters,
/// or an empty prompt error when there is no workflow.
pub open spec fn txt2img_outcome(base: ComfyParams, draw: i64, r: Result<(Prompt, ComfyParams), Txt2ImgApiError>) -> bool {
    match prompt_to_run(base, draw) {
        Some(w) => r matches Ok((p, b)) && p@ == w && b.same(base),
        None => r matches Err(Txt2ImgApiError::EmptyPrompt),
    }
}

/// Whether `r` is what an image-to-image request with parameters `base`, the
/// random number `draw` and the uploaded image `image_name` gives: the
/// workflow to run with the image name written into it; an error when there
/// is no workflow or the name cannot be written.
pub open spec fn img2img_outcome(base: ComfyParams, draw: i64, image_name: String, r: Result<Prompt, Img2ImgApiError>) -> bool {
    match prompt_to_run(base, draw) {
        Some(w) => match set_field(w, Field::Image, SlotValue::Text(image_name)) {
            (w2, Ok(_)) => r matches Ok(p) && p@ == w2,
            (_, Err(_)) => r matches Err(Img2ImgApiError::Img2Img(_)),
        },
        None => r matches Err(Img2ImgApiError::EmptyPrompt),
    }
}

/// Connection settings of the ComfyUI back end: its default parameters and
/// the nodes to use.
#[derive(Debug, PartialEq)]
pub struct ComfyPromptApi {
    /// Default parameters for the ComfyUI API.
    pub params: ComfyParams,
    /// The output node.
    pub output_node: Option<String>,
    /// The prompt node.
    pub prompt_node: Option<String>,
}

impl ComfyPromptApi {
    /// A back end running workflow `prompt`, one image at a time, with a
    /// random seed.
    pub fn new(prompt: Prompt) -> (r: Self)
        ensures
            r.params == ComfyParams::spec_with_prompt(prompt),
            r.output_node is None,
            r.prompt_node is None,
    {
        ComfyPromptApi { params: ComfyParams::with_prompt(prompt), output_node: None, prompt_node: None }
    }

    /// The parameters a generation request is made with: those given, when
    /// they are ComfyUI parameters, else the back end's defaults.
    pub open spec fn base_params(self, config: GenParams) -> ComfyParams {
        match config {
            GenParams::Comfy(p) => p,
            _ => self.params,
        }
    }

    /// The parameters a generation request is made with (see `base_params`).
    pub fn base<'a>(&'a self, config: &'a GenParams) -> (r: &'a ComfyParams)
        ensures
            *r == self.base_params(*config),
    {
        match config {
            GenParams::Comfy(p) => p,
            _ => &self.params,
        }
    }

    /// The workflow to run for a text-to-image request, with the random
    /// number `draw` (see `prompt_to_run`), and the parameters it was made
    /// from; an empty prompt error when there is no workflow.
    pub fn txt2img_prompt_with(&self, config: &GenParams, draw: i64) -> (r: Result<(Prompt, ComfyParams), Txt2ImgApiError>)
        ensures
            txt2img_outcome(self.base_params(*config), draw, r),
    {
        let base = self.base(config);
        let mut new_params = base.clone();
        new_params.seed = choose_seed(base.seed, draw);
        match new_params.apply() {
            Some(p) => Ok((p, base.clone())),
            None => Err(Txt2ImgApiError::EmptyPrompt),
        }
    }

    /// The workflow to run for a text-to-image request, with a random seed
    /// drawn where the parameters ask for one.
    pub fn txt2img_prompt(&self, config: &GenParams) -> (r: Result<(Prompt, ComfyParams), Txt2ImgApiError>)
        ensures
            exists|draw: i64| #[trigger] txt2img_outcome(self.base_params(*config), draw, r),
    {
        let draw = random_i64();
        self.txt2img_prompt_with(config, draw)
    }

    /// The image an image-to-image request starts from; an error when the
    /// parameters hold none.
    pub fn img2img_image(&self, config: &GenParams) -> (r: Result<Vec<u8>, Img2ImgApiError>)
        ensures
            match self.base_params(*config).image {
                Some(img) => r matches Ok(v) && v@ == img@,
                None => r matches Err(Img2ImgApiError::NoImage),
            },
    {
        match &self.base(config).image {
            Some(img) => Ok(img.clone()),
            None => Err(Img2ImgApiError::NoImage),
        }
    }

    /// The workflow to run for an image-to-image request once the image has
    /// been uploaded under the name `image_name`, with the random number
    /// `draw`: the workflow to run (see `prompt_to_run`) with the image name
    /// written into it; an error when there is no workflow or the name
    /// cannot be written.
    pub fn img2img_prompt_with(&self, config: &GenParams, draw: i64, image_name: String) -> (r: Result<Prompt, Img2ImgApiError>)
        ensures
            img2img_outcome(self.base_params(*config), draw, image_name, r),
    {
        let base = self.base(config);
        let mut new_params = base.clone();
        new_params.seed = choose_seed(base.seed, draw);
        match new_params.apply() {
            Some(mut p) => match p.set_image(image_name) {
                Ok(()) => Ok(p),
                Err(_) => Err(Img2ImgApiError::Img2Img("failed to set the input image".to_owned())),
            },
            None => Err(Img2ImgApiError::EmptyPrompt),
        }
    }

    /// The workflow to run for an image-to-image request, with a random seed
    /// drawn where the parameters ask for one.
    pub fn img2img_prompt(&self, config: &GenParams, image_name: String) -> (r: Result<Prompt, Img2ImgApiError>)
        ensures
            exists|draw: i64| #[trigger] img2img_outcome(self.base_params(*config), draw, image_name, r),
    {
        let draw = random_i64();
        self.img2img_prompt_with(config, draw, image_name)
    }

    /// Whether `r` is what the back end offers a user with settings
    /// `user_settings`: the values of the user's settings with the back
    /// end's workflow, or else the back end's defaults.
    pub open spec fn offered(self, user_settings: Option<&GenParams>, r: GenParams) -> bool {
        r matches GenParams::Comfy(c) && (match user_settings {
            Some(us) => opt_prompt(c.prompt) == opt_prompt(self.params.prompt)
                && c.holds_values_of(*us),
            None => c.same(self.params),
        })
    }

    /// The generation parameters to offer a user: those of the user's
    /// settings with the back end's workflow, or else the back end's
    /// defaults.
    pub fn gen_params(&self, user_settings: Option<&GenParams>) -> (r: GenParams)
        ensures
            self.offered(user_settings, r),
    {
        match user_settings {
            Some(us) => {
                let mut params = ComfyParams::from_params(us);
                params.prompt = match &self.params.prompt {
                    Some(p) => Some(p.clone()),
                    None => None,
                };
                GenParams::Comfy(params)
            },
            None => GenParams::Comfy(self.params.clone()),
        }
    }
}

/// Settings of the Stable Diffusion web UI back end: its default parameters.
#[derive(Debug, PartialEq)]
pub struct StableDiffusionWebUiApi {
    /// Default parameters for the Txt2Img endpoint.
    pub txt2img_defaults: Txt2ImgRequest,
    /// Default parameters for the Img2Img endpoint.
    pub img2img_defaults: Img2ImgRequest,
}

impl StableDiffusionWebUiApi {
    /// A back end with no default parameters.
    pub fn new() -> (r: Self)
        ensures
            r.txt2img_defaults == Txt2ImgRequest::spec_default(),
            r.img2img_defaults == Img2ImgRequest::spec_default(),
    {
        StableDiffusionWebUiApi {
            txt2img_defaults: Txt2ImgRequest::default(),
            img2img_defaults: Img2ImgRequest::default(),
        }
    }

    /// Whether `r` is what the back end offers a user with settings
    /// `user_settings`: the user's settings, if any, over the text-to-image
    /// defaults.
    pub open spec fn offered(self, user_settings: Option<&GenParams>, r: GenParams) -> bool {
        r matches GenParams::Txt2Img(t) && (t.defaults matches Some(d) && (d.same(self.txt2img_defaults)
            && match user_settings {
                Some(us) => t.user_params == Txt2ImgParams::request_of(*us),
                None => t.user_params == Txt2ImgRequest::spec_default(),
            }))
    }

    /// The text-to-image parameters to offer a user: the user's settings,
    /// if any, over the text-to-image defaults.
    pub fn gen_params(&self, user_settings: Option<&GenParams>) -> (r: GenParams)
        ensures
            self.offered(user_settings, r),
    {
        match user_settings {
            Some(us) => GenParams::Txt2Img(Txt2ImgParams {
                user_params: Txt2ImgParams::from_params(us).user_params,
                defaults: Some(self.txt2img_defaults.clone()),
            }),
            None => GenParams::Txt2Img(Txt2ImgParams {
                user_params: Txt2ImgRequest::default(),
                defaults: Some(self.txt2img_defaults.clone()),
            }),
        }
    }

    /// Whether `r` is what the back end offers a user with settings
    /// `user_settings` for image-to-image generation: the user's settings,
    /// if any, over the image-to-image defaults.
    pub open spec fn img2img_offered(self, user_settings: Option<&GenParams>, r: GenParams) -> bool {
        r matches GenParams::Img2Img(t) && (t.defaults matches Some(d) && (d.same(self.img2img_defaults)
            && match user_settings {
                Some(us) => t.user_params == Img2ImgParams::request_of(*us),
                None => t.user_params == Img2ImgRequest::spec_default(),
            }))
    }

    /// The image-to-image parameters to offer a user: the user's settings,
    /// if any, over the image-to-image defaults.
    pub fn img2img_gen_params(&self, user_settings: Option<&GenParams>) -> (r: GenParams)
        ensures
            self.img2img_offered(user_settings, r),
    {
        match user_settings {
            Some(us) => GenParams::Img2Img(Img2ImgParams {
                user_params: Img2ImgParams::from_params(us).user_params,
                defaults: Some(self.img2img_defaults.clone()),
            }),
            None => GenParams::Img2Img(Img2ImgParams {
                user_params: Img2ImgRequest::default(),
                defaults: Some(self.img2img_defaults.clone()),
            }),
        }
    }

    /// The parameters a text-to-image response reports: those sent, over the
    /// defaults.
    pub fn txt2img_response_params(&self, parameters: Txt2ImgRequest) -> (r: GenParams)
        ensures
            r matches GenParams::Txt2Img(t) && (t.user_params == parameters && (t.defaults matches Some(d)
                && d.same(self.txt2img_defaults))),
    {
        GenParams::Txt2Img(Txt2ImgParams { user_params: parameters, defaults: Some(self.txt2img_defaults.clone()) })
    }

    /// The parameters an image-to-image response reports: those sent, over
    /// the defaults.
    pub fn img2img_response_params(&self, parameters: Img2ImgRequest) -> (r: GenParams)
        ensures
            r matches GenParams::Img2Img(t) && (t.user_params == parameters && (t.defaults matches Some(d)
                && d.same(self.img2img_defaults))),
    {
        GenParams::Img2Img(Img2ImgParams { user_params: parameters, defaults: Some(self.img2img_defaults.clone()) })
    }
}

} // verus!
