use vstd::prelude::*;

use crate::float_bits::FloatBits;
use crate::sdapi::common::clone_opt_string;
use crate::sdapi::encoding::{base64_decoding, base64_encoding, decode_base64};
use crate::sdapi::img2img::{opt_texts, Img2ImgRequest};
use crate::sdapi::response::all_decode;
use crate::sdapi::txt2img::Txt2ImgRequest;
use crate::workflow::access::{get_field, set_field, Field, SlotValue};
use crate::text::ids;
use crate::workflow::prompt::{Prompt, WorkflowView};

verus! {

/// The seed a workflow holds, if it can be read.
pub open spec fn field_seed(w: WorkflowView, f: Field) -> Option<i64> {
    match get_field(w, f) {
        Ok(SlotValue::Seed(v)) => Some(v),
        _ => None,
    }
}

/// The count a workflow holds for `f`, if it can be read.
pub open spec fn field_count(w: WorkflowView, f: Field) -> Option<u32> {
    match get_field(w, f) {
        Ok(SlotValue::Count(v)) => Some(v),
        _ => None,
    }
}

/// The floating-point value a workflow holds for `f`, if it can be read.
pub open spec fn field_real(w: WorkflowView, f: Field) -> Option<FloatBits> {
    match get_field(w, f) {
        Ok(SlotValue::Real(v)) => Some(v),
        _ => None,
    }
}

/// The text a workflow holds for `f`, if it can be read.
pub open spec fn field_text(w: WorkflowView, f: Field) -> Option<String> {
    match get_field(w, f) {
        Ok(SlotValue::Text(v)) => Some(v),
        _ => None,
    }
}

/// A struct representing the parameters for ComfyUI image generation.
#[derive(Debug, PartialEq)]
pub struct ComfyParams {
    /// The ComfyUI prompt to use for generation.
    pub prompt: Option<Prompt>,
    /// The random seed to use for generation; `-1` asks for a random one.
    pub seed: Option<i64>,
    /// The number of steps to take for generation.
    pub steps: Option<u32>,
    /// The number of images to generate.
    pub count: u32,
    /// The CFG scale to use for generation.
    pub cfg: Option<FloatBits>,
    /// The image width to use for generation.
    pub width: Option<u32>,
    /// The image height to use for generation.
    pub height: Option<u32>,
    /// The prompt text to use for generation.
    pub prompt_text: Option<String>,
    /// The negative prompt text to use for generation.
    pub negative_prompt_text: Option<String>,
    /// The denoising strength to use for generation.
    pub denoising: Option<FloatBits>,
    /// The sampler to use for generation.
    pub sampler: Option<String>,
    /// The batch size to use for generation.
    pub batch_size: Option<u32>,
    /// The image to use for generation.
    pub image: Option<Vec<u8>>,
}

/// Writes `v` into field `f` when it is given; a failed write leaves the
/// workflow as it is.
pub open spec fn set_opt(w: WorkflowView, f: Field, v: Option<SlotValue>) -> WorkflowView {
    match v {
        Some(x) => set_field(w, f, x).0,
        None => w,
    }
}

/// A value as the slot value of a seed.
pub open spec fn seed_value(v: Option<i64>) -> Option<SlotValue> {
    match v {
        Some(x) => Some(SlotValue::Seed(x)),
        None => None,
    }
}

/// A value as the slot value of a count.
pub open spec fn count_value(v: Option<u32>) -> Option<SlotValue> {
    match v {
        Some(x) => Some(SlotValue::Count(x)),
        None => None,
    }
}

/// A value as the slot value of a floating-point parameter.
pub open spec fn real_value(v: Option<FloatBits>) -> Option<SlotValue> {
    match v {
        Some(x) => Some(SlotValue::Real(x)),
        None => None,
    }
}

/// A value as the slot value of a text.
pub open spec fn text_value(v: Option<String>) -> Option<SlotValue> {
    match v {
        Some(x) => Some(SlotValue::Text(x)),
        None => None,
    }
}

/// The workflow `w` with the parameters of `p` written into it, in the
/// order seed, steps, cfg, width, height, prompt, negative prompt,
/// denoising, sampler, batch size; a parameter that cannot be written is
/// passed over.
pub open spec fn applied(p: ComfyParams, w: WorkflowView) -> WorkflowView {
    let w1 = set_opt(w, Field::Seed, seed_value(p.seed));
    let w2 = set_opt(w1, Field::Steps, count_value(p.steps));
    let w3 = set_opt(w2, Field::Cfg, real_value(p.cfg));
    let w4 = set_opt(w3, Field::Width, count_value(p.width));
    let w5 = set_opt(w4, Field::Height, count_value(p.height));
    let w6 = set_opt(w5, Field::Prompt, text_value(p.prompt_text));
    let w7 = set_opt(w6, Field::NegativePrompt, text_value(p.negative_prompt_text));
    let w8 = set_opt(w7, Field::Denoise, real_value(p.denoising));
    let w9 = set_opt(w8, Field::Sampler, text_value(p.sampler));
    set_opt(w9, Field::BatchSize, count_value(p.batch_size))
}

/// Writes `v` into field `f` of `p` when it is given, passing over a failure.
fn write_opt(p: &mut Prompt, f: Field, v: Option<SlotValue>)
    requires
        v matches Some(x) ==> f.fits(x),
    ensures
        final(p)@ == set_opt(old(p)@, f, v),
{
    match v {
        Some(x) => {
            let _ = p.set_field(f, x);
        },
        None => {},
    }
}

/// Copies an optional byte string.
pub fn clone_opt_bytes(o: &Option<Vec<u8>>) -> (r: Option<Vec<u8>>)
    ensures
        opt_bytes(r) == opt_bytes(*o),
{
    match o {
        Some(v) => Some(v.clone()),
        None => None,
    }
}

/// The view of an optional byte string.
pub open spec fn opt_bytes(o: Option<Vec<u8>>) -> Option<Seq<u8>> {
    match o {
        Some(v) => Some(v@),
        None => None,
    }
}

/// The view of an optional workflow.
pub open spec fn opt_prompt(o: Option<Prompt>) -> Option<WorkflowView> {
    match o {
        Some(p) => Some(p@),
        None => None,
    }
}

impl ComfyParams {
    /// Whether two sets of parameters are alike: the same values, the same
    /// workflow and image contents.
    pub open spec fn same(self, other: Self) -> bool {
        &&& opt_prompt(self.prompt) == opt_prompt(other.prompt)
        &&& self.seed == other.seed
        &&& self.steps == other.steps
        &&& self.count == other.count
        &&& self.cfg == other.cfg
        &&& self.width == other.width
        &&& self.height == other.height
        &&& self.prompt_text == other.prompt_text
        &&& self.negative_prompt_text == other.negative_prompt_text
        &&& self.denoising == other.denoising
        &&& self.sampler == other.sampler
        &&& self.batch_size == other.batch_size
        &&& opt_bytes(self.image) == opt_bytes(other.image)
    }

    /// Parameters with the workflow `prompt`, one image and a random seed,
    /// as the ComfyUI back end starts from.
    pub open spec fn spec_with_prompt(prompt: Prompt) -> Self {
        ComfyParams {
            prompt: Some(prompt),
            seed: Some(-1i64),
            steps: None,
            count: 1,
            cfg: None,
            width: None,
            height: None,
            prompt_text: None,
            negative_prompt_text: None,
            denoising: None,
            sampler: None,
            batch_size: None,
            image: None,
        }
    }

    /// Parameters with the workflow `prompt` (see `spec_with_prompt`).
    pub fn with_prompt(prompt: Prompt) -> (r: Self)
        ensures
            r == Self::spec_with_prompt(prompt),
    {
        ComfyParams {
            prompt: Some(prompt),
            seed: Some(-1),
            steps: None,
            count: 1,
            cfg: None,
            width: None,
            height: None,
            prompt_text: None,
            negative_prompt_text: None,
            denoising: None,
            sampler: None,
            batch_size: None,
            image: None,
        }
    }

    /// Applies the parameters to the provided workflow (see `applied`).
    pub fn apply_to(&self, prompt: &Prompt) -> (r: Prompt)
        ensures
            r@ == applied(*self, prompt@),
    {
        let mut p = prompt.clone();
        write_opt(&mut p, Field::Seed, match self.seed { Some(v) => Some(SlotValue::Seed(v)), None => None });
        write_opt(&mut p, Field::Steps, match self.steps { Some(v) => Some(SlotValue::Count(v)), None => None });
        write_opt(&mut p, Field::Cfg, match self.cfg { Some(v) => Some(SlotValue::Real(v)), None => None });
        write_opt(&mut p, Field::Width, match self.width { Some(v) => Some(SlotValue::Count(v)), None => None });
        write_opt(&mut p, Field::Height, match self.height { Some(v) => Some(SlotValue::Count(v)), None => None });
        write_opt(&mut p, Field::Prompt, match &self.prompt_text { Some(v) => Some(SlotValue::Text(v.clone())), None => None });
        write_opt(&mut p, Field::NegativePrompt, match &self.negative_prompt_text { Some(v) => Some(SlotValue::Text(v.clone())), None => None });
        write_opt(&mut p, Field::Denoise, match self.denoising { Some(v) => Some(SlotValue::Real(v)), None => None });
        write_opt(&mut p, Field::Sampler, match &self.sampler { Some(v) => Some(SlotValue::Text(v.clone())), None => None });
        write_opt(&mut p, Field::BatchSize, match self.batch_size { Some(v) => Some(SlotValue::Count(v)), None => None });
        p
    }

    /// Applies the parameters to their own workflow, when there is one.
    pub fn apply(&self) -> (r: Option<Prompt>)
        ensures
            self.prompt is None ==> r is None,
            self.prompt matches Some(p) ==> r matches Some(q) && q@ == applied(*self, p@),
    {
        match &self.prompt {
            Some(p) => Some(self.apply_to(p)),
            None => None,
        }
    }

    /// The number of images to generate.
    pub fn count(&self) -> (r: Option<u32>)
        ensures
            r == Some(self.count),
    {
        Some(self.count)
    }

    /// Sets the number of images to generate.
    pub fn set_count(&mut self, count: u32)
        ensures
            *final(self) == (ComfyParams { count, ..*old(self) }),
    {
        self.count = count;
    }

    /// The image to use for generation.
    pub fn image(&self) -> (r: Option<Vec<u8>>)
        ensures
            opt_bytes(r) == opt_bytes(self.image),
    {
        clone_opt_bytes(&self.image)
    }

    /// Sets the image to use for generation.
    pub fn set_image(&mut self, image: Option<Vec<u8>>)
        ensures
            *final(self) == (ComfyParams { image, ..*old(self) }),
    {
        self.image = image;
    }
}

/// A struct representing the parameters for text-to-image generation in the
/// Stable Diffusion WebUI API.
#[derive(Debug, Clone, PartialEq)]
pub struct Txt2ImgParams {
    /// The parameters provided by the user.
    pub user_params: Txt2ImgRequest,
    /// The default parameters.
    pub defaults: Option<Txt2ImgRequest>,
}

impl Default for Txt2ImgParams {
    fn default() -> (r: Self)
        ensures
            r.user_params == Txt2ImgRequest::spec_default(),
            r.defaults is None,
    {
        Txt2ImgParams { user_params: Txt2ImgRequest::default(), defaults: None }
    }
}

/// A struct representing the parameters for image-to-image generation in
/// the Stable Diffusion WebUI API.
#[derive(Debug, Clone, PartialEq)]
pub struct Img2ImgParams {
    /// The parameters provided by the user.
    pub user_params: Img2ImgRequest,
    /// The default parameters.
    pub defaults: Option<Img2ImgRequest>,
}

impl Default for Img2ImgParams {
    fn default() -> (r: Self)
        ensures
            r.user_params == Img2ImgRequest::spec_default(),
            r.defaults is None,
    {
        Img2ImgParams { user_params: Img2ImgRequest::default(), defaults: None }
    }
}

impl ComfyParams {
    /// The seed: the one set, else the one the workflow holds.
    pub open spec fn spec_seed(self) -> Option<i64> {
        match self.seed {
            Some(v) => Some(v),
            None => match self.prompt {
                Some(p) => field_seed(p@, Field::Seed),
                None => None,
            },
        }
    }

    /// Gets the seed (see `spec_seed`).
    pub fn seed(&self) -> (r: Option<i64>)
        ensures
            r == self.spec_seed(),
    {
        match &self.seed {
            Some(v) => Some(*v),
            None => match &self.prompt {
                Some(p) => match p.get_seed(Field::Seed) {
                    Ok(v) => Some(v),
                    Err(_) => None,
                },
                None => None,
            },
        }
    }

    /// Sets the seed.
    pub fn set_seed(&mut self, seed: i64)
        ensures
            *final(self) == (ComfyParams { seed: Some(seed), ..*old(self) }),
    {
        self.seed = Some(seed);
    }

    /// The number of steps: the one set, else the one the workflow holds.
    pub open spec fn spec_steps(self) -> Option<u32> {
        match self.steps {
            Some(v) => Some(v),
            None => match self.prompt {
                Some(p) => field_count(p@, Field::Steps),
                None => None,
            },
        }
    }

    /// Gets the number of steps (see `spec_steps`).
    pub fn steps(&self) -> (r: Option<u32>)
        ensures
            r == self.spec_steps(),
    {
        match &self.steps {
            Some(v) => Some(*v),
            None => match &self.prompt {
                Some(p) => match p.get_count(Field::Steps) {
                    Ok(v) => Some(v),
                    Err(_) => None,
                },
                None => None,
            },
        }
    }

    /// Sets the number of steps.
    pub fn set_steps(&mut self, steps: u32)
        ensures
            *final(self) == (ComfyParams { steps: Some(steps), ..*old(self) }),
    {
        self.steps = Some(steps);
    }

    /// The cfg scale: the one set, else the one the workflow holds.
    pub open spec fn spec_cfg(self) -> Option<FloatBits> {
        match self.cfg {
            Some(v) => Some(v),
            None => match self.prompt {
                Some(p) => field_real(p@, Field::Cfg),
                None => None,
            },
        }
    }

    /// Gets the CFG scale (see `spec_cfg`).
    pub fn cfg(&self) -> (r: Option<FloatBits>)
        ensures
            r == self.spec_cfg(),
    {
        match &self.cfg {
            Some(v) => Some(*v),
            None => match &self.prompt {
                Some(p) => match p.get_real(Field::Cfg) {
                    Ok(v) => Some(v),
                    Err(_) => None,
                },
                None => None,
            },
        }
    }

    /// Sets the CFG scale.
    pub fn set_cfg(&mut self, cfg: FloatBits)
        ensures
            *final(self) == (ComfyParams { cfg: Some(cfg), ..*old(self) }),
    {
        self.cfg = Some(cfg);
    }

    /// The image width: the one set, else the one the workflow holds.
    pub open spec fn spec_width(self) -> Option<u32> {
        match self.width {
            Some(v) => Some(v),
            None => match self.prompt {
                Some(p) => field_count(p@, Field::Width),
                None => None,
            },
        }
    }

    /// Gets the image width (see `spec_width`).
    pub fn width(&self) -> (r: Option<u32>)
        ensures
            r == self.spec_width(),
    {
        match &self.width {
            Some(v) => Some(*v),
            None => match &self.prompt {
                Some(p) => match p.get_count(Field::Width) {
                    Ok(v) => Some(v),
                    Err(_) => None,
                },
                None => None,
            },
        }
    }

    /// Sets the image width.
    pub fn set_width(&mut self, width: u32)
        ensures
            *final(self) == (ComfyParams { width: Some(width), ..*old(self) }),
    {
        self.width = Some(width);
    }

    /// The image height: the one set, else the one the workflow holds.
    pub open spec fn spec_height(self) -> Option<u32> {
        match self.height {
            Some(v) => Some(v),
            None => match self.prompt {
                Some(p) => field_count(p@, Field::Height),
                None => None,
            },
        }
    }

    /// Gets the image height (see `spec_height`).
    pub fn height(&self) -> (r: Option<u32>)
        ensures
            r == self.spec_height(),
    {
        match &self.height {
            Some(v) => Some(*v),
            None => match &self.prompt {
                Some(p) => match p.get_count(Field::Height) {
                    Ok(v) => Some(v),
                    Err(_) => None,
                },
                None => None,
            },
        }
    }

    /// Sets the image height.
    pub fn set_height(&mut self, height: u32)
        ensures
            *final(self) == (ComfyParams { height: Some(height), ..*old(self) }),
    {
        self.height = Some(height);
    }

    /// The prompt: the one set, else the one the workflow holds.
    pub open spec fn spec_prompt(self) -> Option<String> {
        match self.prompt_text {
            Some(v) => Some(v),
            None => match self.prompt {
                Some(p) => field_text(p@, Field::Prompt),
                None => None,
            },
        }
    }

    /// Gets the prompt (see `spec_prompt`).
    pub fn prompt(&self) -> (r: Option<String>)
        ensures
            r == self.spec_prompt(),
    {
        match &self.prompt_text {
            Some(v) => Some(v.clone()),
            None => match &self.prompt {
                Some(p) => match p.get_text(Field::Prompt) {
                    Ok(v) => Some(v),
                    Err(_) => None,
                },
                None => None,
            },
        }
    }

    /// Sets the prompt.
    pub fn set_prompt(&mut self, prompt: String)
        ensures
            *final(self) == (ComfyParams { prompt_text: Some(prompt), ..*old(self) }),
    {
        self.prompt_text = Some(prompt);
    }

    /// The negative prompt: the one set, else the one the workflow holds.
    pub open spec fn spec_negative_prompt(self) -> Option<String> {
        match self.negative_prompt_text {
            Some(v) => Some(v),
            None => match self.prompt {
                Some(p) => field_text(p@, Field::NegativePrompt),
                None => None,
            },
        }
    }

    /// Gets the negative prompt (see `spec_negative_prompt`).
    pub fn negative_prompt(&self) -> (r: Option<String>)
        ensures
            r == self.spec_negative_prompt(),
    {
        match &self.negative_prompt_text {
            Some(v) => Some(v.clone()),
            None => match &self.prompt {
                Some(p) => match p.get_text(Field::NegativePrompt) {
                    Ok(v) => Some(v),
                    Err(_) => None,
                },
                None => None,
            },
        }
    }

    /// Sets the negative prompt.
    pub fn set_negative_prompt(&mut self, negative_prompt: String)
        ensures
            *final(self) == (ComfyParams { negative_prompt_text: Some(negative_prompt), ..*old(self) }),
    {
        self.negative_prompt_text = Some(negative_prompt);
    }

    /// The denoising strength: the one set, else the one the workflow holds.
    pub open spec fn spec_denoising(self) -> Option<FloatBits> {
        match self.denoising {
            Some(v) => Some(v),
            None => match self.prompt {
                Some(p) => field_real(p@, Field::Denoise),
                None => None,
            },
        }
    }

    /// Gets the denoising strength (see `spec_denoising`).
    pub fn denoising(&self) -> (r: Option<FloatBits>)
        ensures
            r == self.spec_denoising(),
    {
        match &self.denoising {
            Some(v) => Some(*v),
            None => match &self.prompt {
                Some(p) => match p.get_real(Field::Denoise) {
                    Ok(v) => Some(v),
                    Err(_) => None,
                },
                None => None,
            },
        }
    }

    /// Sets the denoising strength.
    pub fn set_denoising(&mut self, denoising: FloatBits)
        ensures
            *final(self) == (ComfyParams { denoising: Some(denoising), ..*old(self) }),
    {
        self.denoising = Some(denoising);
    }

    /// The sampler: the one set, else the one the workflow holds.
    pub open spec fn spec_sampler(self) -> Option<String> {
        match self.sampler {
            Some(v) => Some(v),
            None => match self.prompt {
                Some(p) => field_text(p@, Field::Sampler),
                None => None,
            },
        }
    }

    /// Gets the sampler (see `spec_sampler`).
    pub fn sampler(&self) -> (r: Option<String>)
        ensures
            r == self.spec_sampler(),
    {
        match &self.sampler {
            Some(v) => Some(v.clone()),
            None => match &self.prompt {
                Some(p) => match p.get_text(Field::Sampler) {
                    Ok(v) => Some(v),
                    Err(_) => None,
                },
                None => None,
            },
        }
    }

    /// Sets the sampler.
    pub fn set_sampler(&mut self, sampler: String)
        ensures
            *final(self) == (ComfyParams { sampler: Some(sampler), ..*old(self) }),
    {
        self.sampler = Some(sampler);
    }

    /// The batch size: the one set, else the one the workflow holds.
    pub open spec fn spec_batch_size(self) -> Option<u32> {
        match self.batch_size {
            Some(v) => Some(v),
            None => match self.prompt {
                Some(p) => field_count(p@, Field::BatchSize),
                None => None,
            },
        }
    }

    /// Gets the batch size (see `spec_batch_size`).
    pub fn batch_size(&self) -> (r: Option<u32>)
        ensures
            r == self.spec_batch_size(),
    {
        match &self.batch_size {
            Some(v) => Some(*v),
            None => match &self.prompt {
                Some(p) => match p.get_count(Field::BatchSize) {
                    Ok(v) => Some(v),
                    Err(_) => None,
                },
                None => None,
            },
        }
    }

    /// Sets the batch size.
    pub fn set_batch_size(&mut self, batch_size: u32)
        ensures
            *final(self) == (ComfyParams { batch_size: Some(batch_size), ..*old(self) }),
    {
        self.batch_size = Some(batch_size);
    }

}
impl Txt2ImgParams {
    /// The seed: the one the user set, else the default one.
    pub open spec fn spec_seed(self) -> Option<i64> {
        match self.user_params.seed {
            Some(v) => Some(v),
            None => match self.defaults {
                Some(d) => d.seed,
                None => None,
            },
        }
    }

    /// Gets the seed (see `spec_seed`).
    pub fn seed(&self) -> (r: Option<i64>)
        ensures
            r == self.spec_seed(),
    {
        match &self.user_params.seed {
            Some(v) => Some(*v),
            None => match &self.defaults {
                Some(d) => d.seed,
                None => None,
            },
        }
    }

    /// Sets the seed.
    pub fn set_seed(&mut self, seed: i64)
        ensures
            final(self).defaults == old(self).defaults,
            final(self).user_params.same(Txt2ImgRequest { seed: Some(seed), ..old(self).user_params }),
    {
        self.user_params.seed = Some(seed);
    }

    /// The number of steps: the one the user set, else the default one.
    pub open spec fn spec_steps(self) -> Option<u32> {
        match self.user_params.steps {
            Some(v) => Some(v),
            None => match self.defaults {
                Some(d) => d.steps,
                None => None,
            },
        }
    }

    /// Gets the number of steps (see `spec_steps`).
    pub fn steps(&self) -> (r: Option<u32>)
        ensures
            r == self.spec_steps(),
    {
        match &self.user_params.steps {
            Some(v) => Some(*v),
            None => match &self.defaults {
                Some(d) => d.steps,
                None => None,
            },
        }
    }

    /// Sets the number of steps.
    pub fn set_steps(&mut self, steps: u32)
        ensures
            final(self).defaults == old(self).defaults,
            final(self).user_params.same(Txt2ImgRequest { steps: Some(steps), ..old(self).user_params }),
    {
        self.user_params.steps = Some(steps);
    }

    /// The cfg scale: the one the user set, else the default one.
    pub open spec fn spec_cfg(self) -> Option<FloatBits> {
        match self.user_params.cfg_scale {
            Some(v) => Some(v),
            None => match self.defaults {
                Some(d) => d.cfg_scale,
                None => None,
            },
        }
    }

    /// Gets the CFG scale (see `spec_cfg`).
    pub fn cfg(&self) -> (r: Option<FloatBits>)
        ensures
            r == self.spec_cfg(),
    {
        match &self.user_params.cfg_scale {
            Some(v) => Some(*v),
            None => match &self.defaults {
                Some(d) => d.cfg_scale,
                None => None,
            },
        }
    }

    /// Sets the CFG scale.
    pub fn set_cfg(&mut self, cfg: FloatBits)
        ensures
            final(self).defaults == old(self).defaults,
            final(self).user_params.same(Txt2ImgRequest { cfg_scale: Some(cfg), ..old(self).user_params }),
    {
        self.user_params.cfg_scale = Some(cfg);
    }

    /// The image width: the one the user set, else the default one.
    pub open spec fn spec_width(self) -> Option<u32> {
        match self.user_params.width {
            Some(v) => Some(v),
            None => match self.defaults {
                Some(d) => d.width,
                None => None,
            },
        }
    }

    /// Gets the image width (see `spec_width`).
    pub fn width(&self) -> (r: Option<u32>)
        ensures
            r == self.spec_width(),
    {
        match &self.user_params.width {
            Some(v) => Some(*v),
            None => match &self.defaults {
                Some(d) => d.width,
                None => None,
            },
        }
    }

    /// Sets the image width.
    pub fn set_width(&mut self, width: u32)
        ensures
            final(self).defaults == old(self).defaults,
            final(self).user_params.same(Txt2ImgRequest { width: Some(width), ..old(self).user_params }),
    {
        self.user_params.width = Some(width);
    }

    /// The image height: the one the user set, else the default one.
    pub open spec fn spec_height(self) -> Option<u32> {
        match self.user_params.height {
            Some(v) => Some(v),
            None => match self.defaults {
                Some(d) => d.height,
                None => None,
            },
        }
    }

    /// Gets the image height (see `spec_height`).
    pub fn height(&self) -> (r: Option<u32>)
        ensures
            r == self.spec_height(),
    {
        match &self.user_params.height {
            Some(v) => Some(*v),
            None => match &self.defaults {
                Some(d) => d.height,
                None => None,
            },
        }
    }

    /// Sets the image height.
    pub fn set_height(&mut self, height: u32)
        ensures
            final(self).defaults == old(self).defaults,
            final(self).user_params.same(Txt2ImgRequest { height: Some(height), ..old(self).user_params }),
    {
        self.user_params.height = Some(height);
    }

    /// The prompt: the one the user set, else the default one.
    pub open spec fn spec_prompt(self) -> Option<String> {
        match self.user_params.prompt {
            Some(v) => Some(v),
            None => match self.defaults {
                Some(d) => d.prompt,
                None => None,
            },
        }
    }

    /// Gets the prompt (see `spec_prompt`).
    pub fn prompt(&self) -> (r: Option<String>)
        ensures
            r == self.spec_prompt(),
    {
        match &self.user_params.prompt {
            Some(v) => Some(v.clone()),
            None => match &self.defaults {
                Some(d) => clone_opt_string(&d.prompt),
                None => None,
            },
        }
    }

    /// Sets the prompt.
    pub fn set_prompt(&mut self, prompt: String)
        ensures
            final(self).defaults == old(self).defaults,
            final(self).user_params.same(Txt2ImgRequest { prompt: Some(prompt), ..old(self).user_params }),
    {
        self.user_params.prompt = Some(prompt);
    }

    /// The negative prompt: the one the user set, else the default one.
    pub open spec fn spec_negative_prompt(self) -> Option<String> {
        match self.user_params.negative_prompt {
            Some(v) => Some(v),
            None => match self.defaults {
                Some(d) => d.negative_prompt,
                None => None,
            },
        }
    }

    /// Gets the negative prompt (see `spec_negative_prompt`).
    pub fn negative_prompt(&self) -> (r: Option<String>)
        ensures
            r == self.spec_negative_prompt(),
    {
        match &self.user_params.negative_prompt {
            Some(v) => Some(v.clone()),
            None => match &self.defaults {
                Some(d) => clone_opt_string(&d.negative_prompt),
                None => None,
            },
        }
    }

    /// Sets the negative prompt.
    pub fn set_negative_prompt(&mut self, negative_prompt: String)
        ensures
            final(self).defaults == old(self).defaults,
            final(self).user_params.same(Txt2ImgRequest { negative_prompt: Some(negative_prompt), ..old(self).user_params }),
    {
        self.user_params.negative_prompt = Some(negative_prompt);
    }

    /// The denoising strength: the one the user set, else the default one.
    pub open spec fn spec_denoising(self) -> Option<FloatBits> {
        match self.user_params.denoising_strength {
            Some(v) => Some(v),
            None => match self.defaults {
                Some(d) => d.denoising_strength,
                None => None,
            },
        }
    }

    /// Gets the denoising strength (see `spec_denoising`).
    pub fn denoising(&self) -> (r: Option<FloatBits>)
        ensures
            r == self.spec_denoising(),
    {
        match &self.user_params.denoising_strength {
            Some(v) => Some(*v),
            None => match &self.defaults {
                Some(d) => d.denoising_strength,
                None => None,
            },
        }
    }

    /// Sets the denoising strength.
    pub fn set_denoising(&mut self, denoising: FloatBits)
        ensures
            final(self).defaults == old(self).defaults,
            final(self).user_params.same(Txt2ImgRequest { denoising_strength: Some(denoising), ..old(self).user_params }),
    {
        self.user_params.denoising_strength = Some(denoising);
    }

    /// The sampler: the one the user set, else the default one.
    pub open spec fn spec_sampler(self) -> Option<String> {
        match self.user_params.sampler_index {
            Some(v) => Some(v),
            None => match self.defaults {
                Some(d) => d.sampler_index,
                None => None,
            },
        }
    }

    /// Gets the sampler (see `spec_sampler`).
    pub fn sampler(&self) -> (r: Option<String>)
        ensures
            r == self.spec_sampler(),
    {
        match &self.user_params.sampler_index {
            Some(v) => Some(v.clone()),
            None => match &self.defaults {
                Some(d) => clone_opt_string(&d.sampler_index),
                None => None,
            },
        }
    }

    /// Sets the sampler.
    pub fn set_sampler(&mut self, sampler: String)
        ensures
            final(self).defaults == old(self).defaults,
            final(self).user_params.same(Txt2ImgRequest { sampler_index: Some(sampler), ..old(self).user_params }),
    {
        self.user_params.sampler_index = Some(sampler);
    }

    /// The batch size: the one the user set, else the default one.
    pub open spec fn spec_batch_size(self) -> Option<u32> {
        match self.user_params.batch_size {
            Some(v) => Some(v),
            None => match self.defaults {
                Some(d) => d.batch_size,
                None => None,
            },
        }
    }

    /// Gets the batch size (see `spec_batch_size`).
    pub fn batch_size(&self) -> (r: Option<u32>)
        ensures
            r == self.spec_batch_size(),
    {
        match &self.user_params.batch_size {
            Some(v) => Some(*v),
            None => match &self.defaults {
                Some(d) => d.batch_size,
                None => None,
            },
        }
    }

    /// Sets the batch size.
    pub fn set_batch_size(&mut self, batch_size: u32)
        ensures
            final(self).defaults == old(self).defaults,
            final(self).user_params.same(Txt2ImgRequest { batch_size: Some(batch_size), ..old(self).user_params }),
    {
        self.user_params.batch_size = Some(batch_size);
    }

    /// The number of images to generate: the one the user set, else the
    /// default one.
    pub open spec fn spec_count(self) -> Option<u32> {
        match self.user_params.n_iter {
            Some(v) => Some(v),
            None => match self.defaults {
                Some(d) => d.n_iter,
                None => None,
            },
        }
    }

    /// Gets the number of images to generate (see `spec_count`).
    pub fn count(&self) -> (r: Option<u32>)
        ensures
            r == self.spec_count(),
    {
        match self.user_params.n_iter {
            Some(v) => Some(v),
            None => match &self.defaults {
                Some(d) => d.n_iter,
                None => None,
            },
        }
    }

    /// Sets the number of images to generate.
    pub fn set_count(&mut self, count: u32)
        ensures
            final(self).defaults == old(self).defaults,
            final(self).user_params.same(Txt2ImgRequest { n_iter: Some(count), ..old(self).user_params }),
    {
        self.user_params.n_iter = Some(count);
    }

}
impl Img2ImgParams {
    /// The seed: the one the user set, else the default one.
    pub open spec fn spec_seed(self) -> Option<i64> {
        match self.user_params.seed {
            Some(v) => Some(v),
            None => match self.defaults {
                Some(d) => d.seed,
                None => None,
            },
        }
    }

    /// Gets the seed (see `spec_seed`).
    pub fn seed(&self) -> (r: Option<i64>)
        ensures
            r == self.spec_seed(),
    {
        match &self.user_params.seed {
            Some(v) => Some(*v),
            None => match &self.defaults {
                Some(d) => d.seed,
                None => None,
            },
        }
    }

    /// Sets the seed.
    pub fn set_seed(&mut self, seed: i64)
        ensures
            final(self).defaults == old(self).defaults,
            final(self).user_params.same(Img2ImgRequest { seed: Some(seed), ..old(self).user_params }),
    {
        self.user_params.seed = Some(seed);
    }

    /// The number of steps: the one the user set, else the default one.
    pub open spec fn spec_steps(self) -> Option<u32> {
        match self.user_params.steps {
            Some(v) => Some(v),
            None => match self.defaults {
                Some(d) => d.steps,
                None => None,
            },
        }
    }

    /// Gets the number of steps (see `spec_steps`).
    pub fn steps(&self) -> (r: Option<u32>)
        ensures
            r == self.spec_steps(),
    {
        match &self.user_params.steps {
            Some(v) => Some(*v),
            None => match &self.defaults {
                Some(d) => d.steps,
                None => None,
            },
        }
    }

    /// Sets the number of steps.
    pub fn set_steps(&mut self, steps: u32)
        ensures
            final(self).defaults == old(self).defaults,
            final(self).user_params.same(Img2ImgRequest { steps: Some(steps), ..old(self).user_params }),
    {
        self.user_params.steps = Some(steps);
    }

    /// The cfg scale: the one the user set, else the default one.
    pub open spec fn spec_cfg(self) -> Option<FloatBits> {
        match self.user_params.cfg_scale {
            Some(v) => Some(v),
            None => match self.defaults {
                Some(d) => d.cfg_scale,
                None => None,
            },
        }
    }

    /// Gets the CFG scale (see `spec_cfg`).
    pub fn cfg(&self) -> (r: Option<FloatBits>)
        ensures
            r == self.spec_cfg(),
    {
        match &self.user_params.cfg_scale {
            Some(v) => Some(*v),
            None => match &self.defaults {
                Some(d) => d.cfg_scale,
                None => None,
            },
        }
    }

    /// Sets the CFG scale.
    pub fn set_cfg(&mut self, cfg: FloatBits)
        ensures
            final(self).defaults == old(self).defaults,
            final(self).user_params.same(Img2ImgRequest { cfg_scale: Some(cfg), ..old(self).user_params }),
    {
        self.user_params.cfg_scale = Some(cfg);
    }

    /// The image width: the one the user set, else the default one.
    pub open spec fn spec_width(self) -> Option<u32> {
        match self.user_params.width {
            Some(v) => Some(v),
            None => match self.defaults {
                Some(d) => d.width,
                None => None,
            },
        }
    }

    /// Gets the image width (see `spec_width`).
    pub fn width(&self) -> (r: Option<u32>)
        ensures
            r == self.spec_width(),
    {
        match &self.user_params.width {
            Some(v) => Some(*v),
            None => match &self.defaults {
                Some(d) => d.width,
                None => None,
            },
        }
    }

    /// Sets the image width.
    pub fn set_width(&mut self, width: u32)
        ensures
            final(self).defaults == old(self).defaults,
            final(self).user_params.same(Img2ImgRequest { width: Some(width), ..old(self).user_params }),
    {
        self.user_params.width = Some(width);
    }

    /// The image height: the one the user set, else the default one.
    pub open spec fn spec_height(self) -> Option<u32> {
        match self.user_params.height {
            Some(v) => Some(v),
            None => match self.defaults {
                Some(d) => d.height,
                None => None,
            },
        }
    }

    /// Gets the image height (see `spec_height`).
    pub fn height(&self) -> (r: Option<u32>)
        ensures
            r == self.spec_height(),
    {
        match &self.user_params.height {
            Some(v) => Some(*v),
            None => match &self.defaults {
                Some(d) => d.height,
                None => None,
            },
        }
    }

    /// Sets the image height.
    pub fn set_height(&mut self, height: u32)
        ensures
            final(self).defaults == old(self).defaults,
            final(self).user_params.same(Img2ImgRequest { height: Some(height), ..old(self).user_params }),
    {
        self.user_params.height = Some(height);
    }

    /// The prompt: the one the user set, else the default one.
    pub open spec fn spec_prompt(self) -> Option<String> {
        match self.user_params.prompt {
            Some(v) => Some(v),
            None => match self.defaults {
                Some(d) => d.prompt,
                None => None,
            },
        }
    }

    /// Gets the prompt (see `spec_prompt`).
    pub fn prompt(&self) -> (r: Option<String>)
        ensures
            r == self.spec_prompt(),
    {
        match &self.user_params.prompt {
            Some(v) => Some(v.clone()),
            None => match &self.defaults {
                Some(d) => clone_opt_string(&d.prompt),
                None => None,
            },
        }
    }

    /// Sets the prompt.
    pub fn set_prompt(&mut self, prompt: String)
        ensures
            final(self).defaults == old(self).defaults,
            final(self).user_params.same(Img2ImgRequest { prompt: Some(prompt), ..old(self).user_params }),
    {
        self.user_params.prompt = Some(prompt);
    }

    /// The negative prompt: the one the user set, else the default one.
    pub open spec fn spec_negative_prompt(self) -> Option<String> {
        match self.user_params.negative_prompt {
            Some(v) => Some(v),
            None => match self.defaults {
                Some(d) => d.negative_prompt,
                None => None,
            },
        }
    }

    /// Gets the negative prompt (see `spec_negative_prompt`).
    pub fn negative_prompt(&self) -> (r: Option<String>)
        ensures
            r == self.spec_negative_prompt(),
    {
        match &self.user_params.negative_prompt {
            Some(v) => Some(v.clone()),
            None => match &self.defaults {
                Some(d) => clone_opt_string(&d.negative_prompt),
                None => None,
            },
        }
    }

    /// Sets the negative prompt.
    pub fn set_negative_prompt(&mut self, negative_prompt: String)
        ensures
            final(self).defaults == old(self).defaults,
            final(self).user_params.same(Img2ImgRequest { negative_prompt: Some(negative_prompt), ..old(self).user_params }),
    {
        self.user_params.negative_prompt = Some(negative_prompt);
    }

    /// The denoising strength: the one the user set, else the default one.
    pub open spec fn spec_denoising(self) -> Option<FloatBits> {
        match self.user_params.denoising_strength {
            Some(v) => Some(v),
            None => match self.defaults {
                Some(d) => d.denoising_strength,
                None => None,
            },
        }
    }

    /// Gets the denoising strength (see `spec_denoising`).
    pub fn denoising(&self) -> (r: Option<FloatBits>)
        ensures
            r == self.spec_denoising(),
    {
        match &self.user_params.denoising_strength {
            Some(v) => Some(*v),
            None => match &self.defaults {
                Some(d) => d.denoising_strength,
                None => None,
            },
        }
    }

    /// Sets the denoising strength.
    pub fn set_denoising(&mut self, denoising: FloatBits)
        ensures
            final(self).defaults == old(self).defaults,
            final(self).user_params.same(Img2ImgRequest { denoising_strength: Some(denoising), ..old(self).user_params }),
    {
        self.user_params.denoising_strength = Some(denoising);
    }

    /// The sampler: the one the user set, else the default one.
    pub open spec fn spec_sampler(self) -> Option<String> {
        match self.user_params.sampler_index {
            Some(v) => Some(v),
            None => match self.defaults {
                Some(d) => d.sampler_index,
                None => None,
            },
        }
    }

    /// Gets the sampler (see `spec_sampler`).
    pub fn sampler(&self) -> (r: Option<String>)
        ensures
            r == self.spec_sampler(),
    {
        match &self.user_params.sampler_index {
            Some(v) => Some(v.clone()),
            None => match &self.defaults {
                Some(d) => clone_opt_string(&d.sampler_index),
                None => None,
            },
        }
    }

    /// Sets the sampler.
    pub fn set_sampler(&mut self, sampler: String)
        ensures
            final(self).defaults == old(self).defaults,
            final(self).user_params.same(Img2ImgRequest { sampler_index: Some(sampler), ..old(self).user_params }),
    {
        self.user_params.sampler_index = Some(sampler);
    }

    /// The batch size: the one the user set, else the default one.
    pub open spec fn spec_batch_size(self) -> Option<u32> {
        match self.user_params.batch_size {
            Some(v) => Some(v),
            None => match self.defaults {
                Some(d) => d.batch_size,
                None => None,
            },
        }
    }

    /// Gets the batch size (see `spec_batch_size`).
    pub fn batch_size(&self) -> (r: Option<u32>)
        ensures
            r == self.spec_batch_size(),
    {
        match &self.user_params.batch_size {
            Some(v) => Some(*v),
            None => match &self.defaults {
                Some(d) => d.batch_size,
                None => None,
            },
        }
    }

    /// Sets the batch size.
    pub fn set_batch_size(&mut self, batch_size: u32)
        ensures
            final(self).defaults == old(self).defaults,
            final(self).user_params.same(Img2ImgRequest { batch_size: Some(batch_size), ..old(self).user_params }),
    {
        self.user_params.batch_size = Some(batch_size);
    }

    /// The number of images to generate: the one the user set, else the
    /// default one.
    pub open spec fn spec_count(self) -> Option<u32> {
        match self.user_params.n_iter {
            Some(v) => Some(v),
            None => match self.defaults {
                Some(d) => d.n_iter,
                None => None,
            },
        }
    }

    /// Gets the number of images to generate (see `spec_count`).
    pub fn count(&self) -> (r: Option<u32>)
        ensures
            r == self.spec_count(),
    {
        match self.user_params.n_iter {
            Some(v) => Some(v),
            None => match &self.defaults {
                Some(d) => d.n_iter,
                None => None,
            },
        }
    }

    /// Sets the number of images to generate.
    pub fn set_count(&mut self, count: u32)
        ensures
            final(self).defaults == old(self).defaults,
            final(self).user_params.same(Img2ImgRequest { n_iter: Some(count), ..old(self).user_params }),
    {
        self.user_params.n_iter = Some(count);
    }

}
/// The generation parameters of one of the back ends.
#[derive(Debug, Clone, PartialEq)]
pub enum GenParams {
    /// Parameters for the ComfyUI back end.
    Comfy(ComfyParams),
    /// Parameters for text-to-image generation with the web UI.
    Txt2Img(Txt2ImgParams),
    /// Parameters for image-to-image generation with the web UI.
    Img2Img(Img2ImgParams),
}

impl GenParams {
    /// Gets the seed.
    pub open spec fn spec_seed(self) -> Option<i64> {
        match self {
            GenParams::Comfy(p) => p.spec_seed(),
            GenParams::Txt2Img(p) => p.spec_seed(),
            GenParams::Img2Img(p) => p.spec_seed(),
        }
    }

    /// Gets the seed.
    pub fn seed(&self) -> (r: Option<i64>)
        ensures
            r == self.spec_seed(),
    {
        match self {
            GenParams::Comfy(p) => p.seed(),
            GenParams::Txt2Img(p) => p.seed(),
            GenParams::Img2Img(p) => p.seed(),
        }
    }

    /// Whether `after` is `self` with the seed set to `seed`.
    pub open spec fn with_seed(self, after: Self, seed: i64) -> bool {
        match (self, after) {
            (GenParams::Comfy(a), GenParams::Comfy(b)) => b == (ComfyParams { seed: Some(seed), ..a }),
            (GenParams::Txt2Img(a), GenParams::Txt2Img(b)) => b.defaults == a.defaults
                && b.user_params.same(Txt2ImgRequest { seed: Some(seed), ..a.user_params }),
            (GenParams::Img2Img(a), GenParams::Img2Img(b)) => b.defaults == a.defaults
                && b.user_params.same(Img2ImgRequest { seed: Some(seed), ..a.user_params }),
            _ => false,
        }
    }

    /// Sets the seed.
    pub fn set_seed(&mut self, seed: i64)
        ensures
            old(self).with_seed(*final(self), seed),
    {
        match self {
            GenParams::Comfy(p) => p.set_seed(seed),
            GenParams::Txt2Img(p) => p.set_seed(seed),
            GenParams::Img2Img(p) => p.set_seed(seed),
        }
    }

    /// Gets the number of steps.
    pub open spec fn spec_steps(self) -> Option<u32> {
        match self {
            GenParams::Comfy(p) => p.spec_steps(),
            GenParams::Txt2Img(p) => p.spec_steps(),
            GenParams::Img2Img(p) => p.spec_steps(),
        }
    }

    /// Gets the number of steps.
    pub fn steps(&self) -> (r: Option<u32>)
        ensures
            r == self.spec_steps(),
    {
        match self {
            GenParams::Comfy(p) => p.steps(),
            GenParams::Txt2Img(p) => p.steps(),
            GenParams::Img2Img(p) => p.steps(),
        }
    }

    /// Whether `after` is `self` with the number of steps set to `steps`.
    pub open spec fn with_steps(self, after: Self, steps: u32) -> bool {
        match (self, after) {
            (GenParams::Comfy(a), GenParams::Comfy(b)) => b == (ComfyParams { steps: Some(steps), ..a }),
            (GenParams::Txt2Img(a), GenParams::Txt2Img(b)) => b.defaults == a.defaults
                && b.user_params.same(Txt2ImgRequest { steps: Some(steps), ..a.user_params }),
            (GenParams::Img2Img(a), GenParams::Img2Img(b)) => b.defaults == a.defaults
                && b.user_params.same(Img2ImgRequest { steps: Some(steps), ..a.user_params }),
            _ => false,
        }
    }

    /// Sets the number of steps.
    pub fn set_steps(&mut self, steps: u32)
        ensures
            old(self).with_steps(*final(self), steps),
    {
        match self {
            GenParams::Comfy(p) => p.set_steps(steps),
            GenParams::Txt2Img(p) => p.set_steps(steps),
            GenParams::Img2Img(p) => p.set_steps(steps),
        }
    }

    /// Gets the CFG scale.
    pub open spec fn spec_cfg(self) -> Option<FloatBits> {
        match self {
            GenParams::Comfy(p) => p.spec_cfg(),
            GenParams::Txt2Img(p) => p.spec_cfg(),
            GenParams::Img2Img(p) => p.spec_cfg(),
        }
    }

    /// Gets the CFG scale.
    pub fn cfg(&self) -> (r: Option<FloatBits>)
        ensures
            r == self.spec_cfg(),
    {
        match self {
            GenParams::Comfy(p) => p.cfg(),
            GenParams::Txt2Img(p) => p.cfg(),
            GenParams::Img2Img(p) => p.cfg(),
        }
    }

    /// Whether `after` is `self` with the CFG scale set to `cfg`.
    pub open spec fn with_cfg(self, after: Self, cfg: FloatBits) -> bool {
        match (self, after) {
            (GenParams::Comfy(a), GenParams::Comfy(b)) => b == (ComfyParams { cfg: Some(cfg), ..a }),
            (GenParams::Txt2Img(a), GenParams::Txt2Img(b)) => b.defaults == a.defaults
                && b.user_params.same(Txt2ImgRequest { cfg_scale: Some(cfg), ..a.user_params }),
            (GenParams::Img2Img(a), GenParams::Img2Img(b)) => b.defaults == a.defaults
                && b.user_params.same(Img2ImgRequest { cfg_scale: Some(cfg), ..a.user_params }),
            _ => false,
        }
    }

    /// Sets the CFG scale.
    pub fn set_cfg(&mut self, cfg: FloatBits)
        ensures
            old(self).with_cfg(*final(self), cfg),
    {
        match self {
            GenParams::Comfy(p) => p.set_cfg(cfg),
            GenParams::Txt2Img(p) => p.set_cfg(cfg),
            GenParams::Img2Img(p) => p.set_cfg(cfg),
        }
    }

    /// Gets the image width.
    pub open spec fn spec_width(self) -> Option<u32> {
        match self {
            GenParams::Comfy(p) => p.spec_width(),
            GenParams::Txt2Img(p) => p.spec_width(),
            GenParams::Img2Img(p) => p.spec_width(),
        }
    }

    /// Gets the image width.
    pub fn width(&self) -> (r: Option<u32>)
        ensures
            r == self.spec_width(),
    {
        match self {
            GenParams::Comfy(p) => p.width(),
            GenParams::Txt2Img(p) => p.width(),
            GenParams::Img2Img(p) => p.width(),
        }
    }

    /// Whether `after` is `self` with the image width set to `width`.
    pub open spec fn with_width(self, after: Self, width: u32) -> bool {
        match (self, after) {
            (GenParams::Comfy(a), GenParams::Comfy(b)) => b == (ComfyParams { width: Some(width), ..a }),
            (GenParams::Txt2Img(a), GenParams::Txt2Img(b)) => b.defaults == a.defaults
                && b.user_params.same(Txt2ImgRequest { width: Some(width), ..a.user_params }),
            (GenParams::Img2Img(a), GenParams::Img2Img(b)) => b.defaults == a.defaults
                && b.user_params.same(Img2ImgRequest { width: Some(width), ..a.user_params }),
            _ => false,
        }
    }

    /// Sets the image width.
    pub fn set_width(&mut self, width: u32)
        ensures
            old(self).with_width(*final(self), width),
    {
        match self {
            GenParams::Comfy(p) => p.set_width(width),
            GenParams::Txt2Img(p) => p.set_width(width),
            GenParams::Img2Img(p) => p.set_width(width),
        }
    }

    /// Gets the image height.
    pub open spec fn spec_height(self) -> Option<u32> {
        match self {
            GenParams::Comfy(p) => p.spec_height(),
            GenParams::Txt2Img(p) => p.spec_height(),
            GenParams::Img2Img(p) => p.spec_height(),
        }
    }

    /// Gets the image height.
    pub fn height(&self) -> (r: Option<u32>)
        ensures
            r == self.spec_height(),
    {
        match self {
            GenParams::Comfy(p) => p.height(),
            GenParams::Txt2Img(p) => p.height(),
            GenParams::Img2Img(p) => p.height(),
        }
    }

    /// Whether `after` is `self` with the image height set to `height`.
    pub open spec fn with_height(self, after: Self, height: u32) -> bool {
        match (self, after) {
            (GenParams::Comfy(a), GenParams::Comfy(b)) => b == (ComfyParams { height: Some(height), ..a }),
            (GenParams::Txt2Img(a), GenParams::Txt2Img(b)) => b.defaults == a.defaults
                && b.user_params.same(Txt2ImgRequest { height: Some(height), ..a.user_params }),
            (GenParams::Img2Img(a), GenParams::Img2Img(b)) => b.defaults == a.defaults
                && b.user_params.same(Img2ImgRequest { height: Some(height), ..a.user_params }),
            _ => false,
        }
    }

    /// Sets the image height.
    pub fn set_height(&mut self, height: u32)
        ensures
            old(self).with_height(*final(self), height),
    {
        match self {
            GenParams::Comfy(p) => p.set_height(height),
            GenParams::Txt2Img(p) => p.set_height(height),
            GenParams::Img2Img(p) => p.set_height(height),
        }
    }

    /// Gets the prompt.
    pub open spec fn spec_prompt(self) -> Option<String> {
        match self {
            GenParams::Comfy(p) => p.spec_prompt(),
            GenParams::Txt2Img(p) => p.spec_prompt(),
            GenParams::Img2Img(p) => p.spec_prompt(),
        }
    }

    /// Gets the prompt.
    pub fn prompt(&self) -> (r: Option<String>)
        ensures
            r == self.spec_prompt(),
    {
        match self {
            GenParams::Comfy(p) => p.prompt(),
            GenParams::Txt2Img(p) => p.prompt(),
            GenParams::Img2Img(p) => p.prompt(),
        }
    }

    /// Whether `after` is `self` with the prompt set to `prompt`.
    pub open spec fn with_prompt(self, after: Self, prompt: String) -> bool {
        match (self, after) {
            (GenParams::Comfy(a), GenParams::Comfy(b)) => b == (ComfyParams { prompt_text: Some(prompt), ..a }),
            (GenParams::Txt2Img(a), GenParams::Txt2Img(b)) => b.defaults == a.defaults
                && b.user_params.same(Txt2ImgRequest { prompt: Some(prompt), ..a.user_params }),
            (GenParams::Img2Img(a), GenParams::Img2Img(b)) => b.defaults == a.defaults
                && b.user_params.same(Img2ImgRequest { prompt: Some(prompt), ..a.user_params }),
            _ => false,
        }
    }

    /// Sets the prompt.
    pub fn set_prompt(&mut self, prompt: String)
        ensures
            old(self).with_prompt(*final(self), prompt),
    {
        match self {
            GenParams::Comfy(p) => p.set_prompt(prompt),
            GenParams::Txt2Img(p) => p.set_prompt(prompt),
            GenParams::Img2Img(p) => p.set_prompt(prompt),
        }
    }

    /// Gets the negative prompt.
    pub open spec fn spec_negative_prompt(self) -> Option<String> {
        match self {
            GenParams::Comfy(p) => p.spec_negative_prompt(),
            GenParams::Txt2Img(p) => p.spec_negative_prompt(),
            GenParams::Img2Img(p) => p.spec_negative_prompt(),
        }
    }

    /// Gets the negative prompt.
    pub fn negative_prompt(&self) -> (r: Option<String>)
        ensures
            r == self.spec_negative_prompt(),
    {
        match self {
            GenParams::Comfy(p) => p.negative_prompt(),
            GenParams::Txt2Img(p) => p.negative_prompt(),
            GenParams::Img2Img(p) => p.negative_prompt(),
        }
    }

    /// Whether `after` is `self` with the negative prompt set to `negative_prompt`.
    pub open spec fn with_negative_prompt(self, after: Self, negative_prompt: String) -> bool {
        match (self, after) {
            (GenParams::Comfy(a), GenParams::Comfy(b)) => b == (ComfyParams { negative_prompt_text: Some(negative_prompt), ..a }),
            (GenParams::Txt2Img(a), GenParams::Txt2Img(b)) => b.defaults == a.defaults
                && b.user_params.same(Txt2ImgRequest { negative_prompt: Some(negative_prompt), ..a.user_params }),
            (GenParams::Img2Img(a), GenParams::Img2Img(b)) => b.defaults == a.defaults
                && b.user_params.same(Img2ImgRequest { negative_prompt: Some(negative_prompt), ..a.user_params }),
            _ => false,
        }
    }

    /// Sets the negative prompt.
    pub fn set_negative_prompt(&mut self, negative_prompt: String)
        ensures
            old(self).with_negative_prompt(*final(self), negative_prompt),
    {
        match self {
            GenParams::Comfy(p) => p.set_negative_prompt(negative_prompt),
            GenParams::Txt2Img(p) => p.set_negative_prompt(negative_prompt),
            GenParams::Img2Img(p) => p.set_negative_prompt(negative_prompt),
        }
    }

    /// Gets the denoising strength.
    pub open spec fn spec_denoising(self) -> Option<FloatBits> {
        match self {
            GenParams::Comfy(p) => p.spec_denoising(),
            GenParams::Txt2Img(p) => p.spec_denoising(),
            GenParams::Img2Img(p) => p.spec_denoising(),
        }
    }

    /// Gets the denoising strength.
    pub fn denoising(&self) -> (r: Option<FloatBits>)
        ensures
            r == self.spec_denoising(),
    {
        match self {
            GenParams::Comfy(p) => p.denoising(),
            GenParams::Txt2Img(p) => p.denoising(),
            GenParams::Img2Img(p) => p.denoising(),
        }
    }

    /// Whether `after` is `self` with the denoising strength set to `denoising`.
    pub open spec fn with_denoising(self, after: Self, denoising: FloatBits) -> bool {
        match (self, after) {
            (GenParams::Comfy(a), GenParams::Comfy(b)) => b == (ComfyParams { denoising: Some(denoising), ..a }),
            (GenParams::Txt2Img(a), GenParams::Txt2Img(b)) => b.defaults == a.defaults
                && b.user_params.same(Txt2ImgRequest { denoising_strength: Some(denoising), ..a.user_params }),
            (GenParams::Img2Img(a), GenParams::Img2Img(b)) => b.defaults == a.defaults
                && b.user_params.same(Img2ImgRequest { denoising_strength: Some(denoising), ..a.user_params }),
            _ => false,
        }
    }

    /// Sets the denoising strength.
    pub fn set_denoising(&mut self, denoising: FloatBits)
        ensures
            old(self).with_denoising(*final(self), denoising),
    {
        match self {
            GenParams::Comfy(p) => p.set_denoising(denoising),
            GenParams::Txt2Img(p) => p.set_denoising(denoising),
            GenParams::Img2Img(p) => p.set_denoising(denoising),
        }
    }

    /// Gets the sampler.
    pub open spec fn spec_sampler(self) -> Option<String> {
        match self {
            GenParams::Comfy(p) => p.spec_sampler(),
            GenParams::Txt2Img(p) => p.spec_sampler(),
            GenParams::Img2Img(p) => p.spec_sampler(),
        }
    }

    /// Gets the sampler.
    pub fn sampler(&self) -> (r: Option<String>)
        ensures
            r == self.spec_sampler(),
    {
        match self {
            GenParams::Comfy(p) => p.sampler(),
            GenParams::Txt2Img(p) => p.sampler(),
            GenParams::Img2Img(p) => p.sampler(),
        }
    }

    /// Whether `after` is `self` with the sampler set to `sampler`.
    pub open spec fn with_sampler(self, after: Self, sampler: String) -> bool {
        match (self, after) {
            (GenParams::Comfy(a), GenParams::Comfy(b)) => b == (ComfyParams { sampler: Some(sampler), ..a }),
            (GenParams::Txt2Img(a), GenParams::Txt2Img(b)) => b.defaults == a.defaults
                && b.user_params.same(Txt2ImgRequest { sampler_index: Some(sampler), ..a.user_params }),
            (GenParams::Img2Img(a), GenParams::Img2Img(b)) => b.defaults == a.defaults
                && b.user_params.same(Img2ImgRequest { sampler_index: Some(sampler), ..a.user_params }),
            _ => false,
        }
    }

    /// Sets the sampler.
    pub fn set_sampler(&mut self, sampler: String)
        ensures
            old(self).with_sampler(*final(self), sampler),
    {
        match self {
            GenParams::Comfy(p) => p.set_sampler(sampler),
            GenParams::Txt2Img(p) => p.set_sampler(sampler),
            GenParams::Img2Img(p) => p.set_sampler(sampler),
        }
    }

    /// Gets the batch size.
    pub open spec fn spec_batch_size(self) -> Option<u32> {
        match self {
            GenParams::Comfy(p) => p.spec_batch_size(),
            GenParams::Txt2Img(p) => p.spec_batch_size(),
            GenParams::Img2Img(p) => p.spec_batch_size(),
        }
    }

    /// Gets the batch size.
    pub fn batch_size(&self) -> (r: Option<u32>)
        ensures
            r == self.spec_batch_size(),
    {
        match self {
            GenParams::Comfy(p) => p.batch_size(),
            GenParams::Txt2Img(p) => p.batch_size(),
            GenParams::Img2Img(p) => p.batch_size(),
        }
    }

    /// Whether `after` is `self` with the batch size set to `batch_size`.
    pub open spec fn with_batch_size(self, after: Self, batch_size: u32) -> bool {
        match (self, after) {
            (GenParams::Comfy(a), GenParams::Comfy(b)) => b == (ComfyParams { batch_size: Some(batch_size), ..a }),
            (GenParams::Txt2Img(a), GenParams::Txt2Img(b)) => b.defaults == a.defaults
                && b.user_params.same(Txt2ImgRequest { batch_size: Some(batch_size), ..a.user_params }),
            (GenParams::Img2Img(a), GenParams::Img2Img(b)) => b.defaults == a.defaults
                && b.user_params.same(Img2ImgRequest { batch_size: Some(batch_size), ..a.user_params }),
            _ => false,
        }
    }

    /// Sets the batch size.
    pub fn set_batch_size(&mut self, batch_size: u32)
        ensures
            old(self).with_batch_size(*final(self), batch_size),
    {
        match self {
            GenParams::Comfy(p) => p.set_batch_size(batch_size),
            GenParams::Txt2Img(p) => p.set_batch_size(batch_size),
            GenParams::Img2Img(p) => p.set_batch_size(batch_size),
        }
    }

    /// Gets the number of images to generate.
    pub open spec fn spec_count(self) -> Option<u32> {
        match self {
            GenParams::Comfy(p) => Some(p.count),
            GenParams::Txt2Img(p) => p.spec_count(),
            GenParams::Img2Img(p) => p.spec_count(),
        }
    }

    /// Gets the number of images to generate.
    pub fn count(&self) -> (r: Option<u32>)
        ensures
            r == self.spec_count(),
    {
        match self {
            GenParams::Comfy(p) => p.count(),
            GenParams::Txt2Img(p) => p.count(),
            GenParams::Img2Img(p) => p.count(),
        }
    }

    /// Whether `after` is `self` with the number of images to generate set to `count`.
    pub open spec fn with_count(self, after: Self, count: u32) -> bool {
        match (self, after) {
            (GenParams::Comfy(a), GenParams::Comfy(b)) => b == (ComfyParams { count: count, ..a }),
            (GenParams::Txt2Img(a), GenParams::Txt2Img(b)) => b.defaults == a.defaults
                && b.user_params.same(Txt2ImgRequest { n_iter: Some(count), ..a.user_params }),
            (GenParams::Img2Img(a), GenParams::Img2Img(b)) => b.defaults == a.defaults
                && b.user_params.same(Img2ImgRequest { n_iter: Some(count), ..a.user_params }),
            _ => false,
        }
    }

    /// Sets the number of images to generate.
    pub fn set_count(&mut self, count: u32)
        ensures
            old(self).with_count(*final(self), count),
    {
        match self {
            GenParams::Comfy(p) => p.set_count(count),
            GenParams::Txt2Img(p) => p.set_count(count),
            GenParams::Img2Img(p) => p.set_count(count),
        }
    }

    /// Gets the image.
    pub open spec fn spec_image(self) -> Option<Seq<u8>> {
        match self {
            GenParams::Comfy(p) => opt_bytes(p.image),
            GenParams::Txt2Img(_) => None,
            GenParams::Img2Img(p) => p.spec_image(),
        }
    }

    /// Gets the image.
    pub fn image(&self) -> (r: Option<Vec<u8>>)
        ensures
            opt_bytes(r) == self.spec_image(),
    {
        match self {
            GenParams::Comfy(p) => p.image(),
            GenParams::Txt2Img(_) => None,
            GenParams::Img2Img(p) => p.image(),
        }
    }

    /// Sets the image; parameters for text-to-image generation hold none.
    pub fn set_image(&mut self, image: Option<Vec<u8>>)
        ensures
            match (*old(self), *final(self)) {
                (GenParams::Comfy(a), GenParams::Comfy(b)) => b == (ComfyParams { image, ..a }),
                (GenParams::Txt2Img(a), GenParams::Txt2Img(b)) => b == a,
                (GenParams::Img2Img(a), GenParams::Img2Img(b)) => b.defaults == a.defaults
                    && b.user_params == (Img2ImgRequest { init_images: b.user_params.init_images, ..a.user_params })
                    && opt_texts(b.user_params.init_images) == match image {
                        Some(img) => Some(match opt_texts(a.user_params.init_images) {
                            Some(s) => s.push(base64_encoding(img@)),
                            None => seq![base64_encoding(img@)],
                        }),
                        None => None,
                    },
                _ => false,
            },
    {
        match self {
            GenParams::Comfy(p) => p.set_image(image),
            GenParams::Txt2Img(_) => {},
            GenParams::Img2Img(p) => p.set_image(image),
        }
    }
}

/// The image the first `n` base64 texts describe: the decoding of the last
/// of them when all decode, `None` when one does not or when there is none.
pub open spec fn last_decoded(texts: Seq<String>, n: int) -> Option<Seq<u8>> {
    if n > 0 && all_decode(texts, n) {
        base64_decoding(texts[n - 1]@)
    } else {
        None
    }
}

impl Img2ImgParams {
    /// Gets the image: the last initial image, when all of them decode.
    pub open spec fn spec_image(self) -> Option<Seq<u8>> {
        match self.user_params.init_images {
            Some(v) => last_decoded(v@, v@.len() as int),
            None => None,
        }
    }

    /// Gets the image (see `spec_image`).
    pub fn image(&self) -> (r: Option<Vec<u8>>)
        ensures
            opt_bytes(r) == self.spec_image(),
    {
        match &self.user_params.init_images {
            Some(images) => {
                let mut last: Option<Vec<u8>> = None;
                let mut i: usize = 0;
                while i < images.len()
                    invariant
                        i <= images.len(),
                        all_decode(images@, i as int),
                        opt_bytes(last) == last_decoded(images@, i as int),
                        self.user_params.init_images matches Some(v) && v@ == images@,
                    decreases images.len() - i,
                {
                    match decode_base64(images[i].as_str()) {
                        Ok(bytes) => {
                            last = Some(bytes);
                        },
                        Err(_) => {
                            assert(base64_decoding(images@[i as int]@) is None);
                            assert(!all_decode(images@, images@.len() as int));
                            return None;
                        },
                    }
                    i += 1;
                }
                last
            },
            None => None,
        }
    }

    /// Sets the image: appended, base64-encoded, to the initial images; `None`
    /// removes the initial images.
    pub fn set_image(&mut self, image: Option<Vec<u8>>)
        ensures
            final(self).defaults == old(self).defaults,
            final(self).user_params == (Img2ImgRequest {
                init_images: final(self).user_params.init_images,
                ..old(self).user_params
            }),
            opt_texts(final(self).user_params.init_images) == match image {
                Some(img) => Some(match opt_texts(old(self).user_params.init_images) {
                    Some(s) => s.push(base64_encoding(img@)),
                    None => seq![base64_encoding(img@)],
                }),
                None => None,
            },
            image is None ==> final(self).spec_image() is None,
            (image matches Some(img) && match old(self).user_params.init_images {
                Some(v) => all_decode(v@, v@.len() as int),
                None => true,
            }) ==> final(self).spec_image() == opt_bytes(image),
    {
        let ghost before = self.user_params.init_images;
        match image {
            Some(img) => {
                self.user_params.with_image(img.as_slice());
                proof {
                    let cur = self.user_params.init_images;
                    if let Some(v) = cur {
                        let n = v@.len() as int;
                        assert(ids(v@) == match opt_texts(before) {
                            Some(s) => s.push(base64_encoding(img@)),
                            None => seq![base64_encoding(img@)],
                        });
                        if match before {
                            Some(b) => all_decode(b@, b@.len() as int),
                            None => true,
                        } {
                            assert forall|i: int| 0 <= i < n implies (#[trigger] base64_decoding(v@[i]@)) is Some by {
                                if i < n - 1 {
                                    if let Some(b) = before {
                                        assert(ids(v@)[i] == ids(b@)[i]);
                                        assert(base64_decoding(b@[i]@) is Some);
                                    }
                                } else {
                                    assert(v@[i] == v@.last());
                                }
                            }
                            assert(all_decode(v@, n));
                        }
                    }
                }
            },
            None => {
                self.user_params.init_images = None;
            },
        }
    }
}

impl ComfyParams {
    /// Whether these parameters hold the values of `params`, with one image
    /// when `params` does not say how many.
    pub open spec fn holds_values_of(self, params: GenParams) -> bool {
        &&& self.seed == params.spec_seed()
        &&& self.steps == params.spec_steps()
        &&& self.count == (match params.spec_count() {
            Some(c) => c,
            None => 1,
        })
        &&& self.cfg == params.spec_cfg()
        &&& self.width == params.spec_width()
        &&& self.height == params.spec_height()
        &&& self.prompt_text == params.spec_prompt()
        &&& self.negative_prompt_text == params.spec_negative_prompt()
        &&& self.denoising == params.spec_denoising()
        &&& self.sampler == params.spec_sampler()
        &&& self.batch_size == params.spec_batch_size()
        &&& opt_bytes(self.image) == params.spec_image()
    }

    /// ComfyUI parameters holding the values of `params`, and no workflow.
    pub fn from_params(params: &GenParams) -> (r: Self)
        ensures
            r.prompt is None,
            r.holds_values_of(*params),
    {
        ComfyParams {
            prompt: None,
            seed: params.seed(),
            steps: params.steps(),
            count: match params.count() {
                Some(c) => c,
                None => 1,
            },
            cfg: params.cfg(),
            width: params.width(),
            height: params.height(),
            prompt_text: params.prompt(),
            negative_prompt_text: params.negative_prompt(),
            denoising: params.denoising(),
            sampler: params.sampler(),
            batch_size: params.batch_size(),
            image: params.image(),
        }
    }
}

impl Txt2ImgParams {
    /// The request holding the values of `params`, and nothing else.
    pub open spec fn request_of(params: GenParams) -> Txt2ImgRequest {
        Txt2ImgRequest {
                seed: params.spec_seed(),
                steps: params.spec_steps(),
                n_iter: params.spec_count(),
                cfg_scale: params.spec_cfg(),
                width: params.spec_width(),
                height: params.spec_height(),
                prompt: params.spec_prompt(),
                negative_prompt: params.spec_negative_prompt(),
                denoising_strength: params.spec_denoising(),
                sampler_index: params.spec_sampler(),
                batch_size: params.spec_batch_size(),
                ..Txt2ImgRequest::spec_default()
            }
    }

    /// Text-to-image parameters holding the values of `params` as user
    /// parameters, with no defaults.
    pub fn from_params(params: &GenParams) -> (r: Self)
        ensures
            r.defaults is None,
            r.user_params == Self::request_of(*params),
    {
        let mut user_params = Txt2ImgRequest::default();
        user_params.seed = params.seed();
        user_params.steps = params.steps();
        user_params.n_iter = params.count();
        user_params.cfg_scale = params.cfg();
        user_params.width = params.width();
        user_params.height = params.height();
        user_params.prompt = params.prompt();
        user_params.negative_prompt = params.negative_prompt();
        user_params.denoising_strength = params.denoising();
        user_params.sampler_index = params.sampler();
        user_params.batch_size = params.batch_size();
        Txt2ImgParams { user_params, defaults: None }
    }
}

impl Img2ImgParams {
    /// The request holding the values of `params`, and nothing else.
    pub open spec fn request_of(params: GenParams) -> Img2ImgRequest {
        Img2ImgRequest {
                seed: params.spec_seed(),
                steps: params.spec_steps(),
                n_iter: params.spec_count(),
                cfg_scale: params.spec_cfg(),
                width: params.spec_width(),
                height: params.spec_height(),
                prompt: params.spec_prompt(),
                negative_prompt: params.spec_negative_prompt(),
                denoising_strength: params.spec_denoising(),
                sampler_index: params.spec_sampler(),
                batch_size: params.spec_batch_size(),
                ..Img2ImgRequest::spec_default()
            }
    }

    /// Image-to-image parameters holding the values of `params` (but not its
    /// image) as user parameters, with no defaults.
    pub fn from_params(params: &GenParams) -> (r: Self)
        ensures
            r.defaults is None,
            r.user_params == Self::request_of(*params),
    {
        let mut user_params = Img2ImgRequest::default();
        user_params.seed = params.seed();
        user_params.steps = params.steps();
        user_params.n_iter = params.count();
        user_params.cfg_scale = params.cfg();
        user_params.width = params.width();
        user_params.height = params.height();
        user_params.prompt = params.prompt();
        user_params.negative_prompt = params.negative_prompt();
        user_params.denoising_strength = params.denoising();
        user_params.sampler_index = params.sampler();
        user_params.batch_size = params.batch_size();
        Img2ImgParams { user_params, defaults: None }
    }
}

} // verus!
