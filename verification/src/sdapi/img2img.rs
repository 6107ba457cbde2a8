use vstd::prelude::*;

use crate::float_bits::FloatBits;
use crate::sdapi::common::{clone_opt_string, clone_opt_strings, opt_seq, or_opt};
use crate::sdapi::encoding::{base64_decoding, base64_encoding, encode_base64};
use crate::text::{ids, lemma_ids_push};

verus! {

/// The optional list of strings as character sequences.
pub open spec fn opt_texts(o: Option<Vec<String>>) -> Option<Seq<Seq<char>>> {
    match o {
        Some(v) => Some(ids(v@)),
        None => None,
    }
}

/// The standard base64 encodings of a list of byte strings.
pub open spec fn encoded_all(images: Seq<Vec<u8>>) -> Seq<Seq<char>> {
    images.map_values(|b: Vec<u8>| base64_encoding(b@))
}

/// Struct representing an image to image request.
#[derive(Debug, PartialEq)]
pub struct Img2ImgRequest {
    /// Initial images, base64-encoded.
    pub init_images: Option<Vec<String>>,
    /// Resize mode.
    pub resize_mode: Option<u32>,
    /// Strength of denoising applied to the image.
    pub denoising_strength: Option<FloatBits>,
    /// Image CFG scale.
    pub image_cfg_scale: Option<u32>,
    /// Mask.
    pub mask: Option<String>,
    /// Blur to apply to the mask.
    pub mask_blur: Option<u32>,
    /// Amount of inpainting to apply.
    pub inpainting_fill: Option<u32>,
    /// Whether to perform inpainting at full resolution.
    pub inpaint_full_res: Option<bool>,
    /// Padding when inpainting at full resolution.
    pub inpaint_full_res_padding: Option<u32>,
    /// Whether to invert the inpainting mask.
    pub inpainting_mask_invert: Option<u32>,
    /// Initial noise multiplier.
    pub initial_noise_multiplier: Option<u32>,
    /// Text prompt for generating the image.
    pub prompt: Option<String>,
    /// List of style prompts for generating the image.
    pub styles: Option<Vec<String>>,
    /// Seed; `-1` asks for a random one.
    pub seed: Option<i64>,
    /// Subseed.
    pub subseed: Option<i64>,
    /// Strength of the subseed.
    pub subseed_strength: Option<u32>,
    /// Height to resize the seed image from.
    pub seed_resize_from_h: Option<i32>,
    /// Width to resize the seed image from.
    pub seed_resize_from_w: Option<i32>,
    /// Name of the sampler.
    pub sampler_name: Option<String>,
    /// Batch size.
    pub batch_size: Option<u32>,
    /// Number of iterations.
    pub n_iter: Option<u32>,
    /// Number of steps.
    pub steps: Option<u32>,
    /// CFG scale.
    pub cfg_scale: Option<FloatBits>,
    /// Width of the generated image.
    pub width: Option<u32>,
    /// Height of the generated image.
    pub height: Option<u32>,
    /// Whether to restore faces in the generated image.
    pub restore_faces: Option<bool>,
    /// Whether to tile the generated image.
    pub tiling: Option<bool>,
    /// Whether not to save samples.
    pub do_not_save_samples: Option<bool>,
    /// Whether not to save the grid.
    pub do_not_save_grid: Option<bool>,
    /// Negative prompt.
    pub negative_prompt: Option<String>,
    /// Eta value.
    pub eta: Option<u32>,
    /// Churn value.
    pub s_churn: Option<FloatBits>,
    /// Maximum temperature value.
    pub s_tmax: Option<FloatBits>,
    /// Minimum temperature value.
    pub s_tmin: Option<FloatBits>,
    /// Amount of noise.
    pub s_noise: Option<FloatBits>,
    /// Settings to override, as the JSON text of an object.
    pub override_settings: Option<String>,
    /// Whether to restore the settings afterwards.
    pub override_settings_restore_afterwards: Option<bool>,
    /// Arguments to pass to the script, each as JSON text.
    pub script_args: Option<Vec<String>>,
    /// Index of the sampler.
    pub sampler_index: Option<String>,
    /// Whether to include initial images in the output.
    pub include_init_images: Option<bool>,
    /// Name of the script.
    pub script_name: Option<String>,
    /// Whether to send the generated images.
    pub send_images: Option<bool>,
    /// Whether to save the generated images.
    pub save_images: Option<bool>,
    /// Scripts to always run, as the JSON text of an object.
    pub alwayson_scripts: Option<String>,
}

impl Img2ImgRequest {
    /// Whether two requests hold the same settings.
    pub open spec fn same(self, other: Self) -> bool {
        &&& opt_seq(self.init_images) == opt_seq(other.init_images)
        &&& self.resize_mode == other.resize_mode
        &&& self.denoising_strength == other.denoising_strength
        &&& self.image_cfg_scale == other.image_cfg_scale
        &&& self.mask == other.mask
        &&& self.mask_blur == other.mask_blur
        &&& self.inpainting_fill == other.inpainting_fill
        &&& self.inpaint_full_res == other.inpaint_full_res
        &&& self.inpaint_full_res_padding == other.inpaint_full_res_padding
        &&& self.inpainting_mask_invert == other.inpainting_mask_invert
        &&& self.initial_noise_multiplier == other.initial_noise_multiplier
        &&& self.prompt == other.prompt
        &&& opt_seq(self.styles) == opt_seq(other.styles)
        &&& self.seed == other.seed
        &&& self.subseed == other.subseed
        &&& self.subseed_strength == other.subseed_strength
        &&& self.seed_resize_from_h == other.seed_resize_from_h
        &&& self.seed_resize_from_w == other.seed_resize_from_w
        &&& self.sampler_name == other.sampler_name
        &&& self.batch_size == other.batch_size
        &&& self.n_iter == other.n_iter
        &&& self.steps == other.steps
        &&& self.cfg_scale == other.cfg_scale
        &&& self.width == other.width
        &&& self.height == other.height
        &&& self.restore_faces == other.restore_faces
        &&& self.tiling == other.tiling
        &&& self.do_not_save_samples == other.do_not_save_samples
        &&& self.do_not_save_grid == other.do_not_save_grid
        &&& self.negative_prompt == other.negative_prompt
        &&& self.eta == other.eta
        &&& self.s_churn == other.s_churn
        &&& self.s_tmax == other.s_tmax
        &&& self.s_tmin == other.s_tmin
        &&& self.s_noise == other.s_noise
        &&& self.override_settings == other.override_settings
        &&& self.override_settings_restore_afterwards == other.override_settings_restore_afterwards
        &&& opt_seq(self.script_args) == opt_seq(other.script_args)
        &&& self.sampler_index == other.sampler_index
        &&& self.include_init_images == other.include_init_images
        &&& self.script_name == other.script_name
        &&& self.send_images == other.send_images
        &&& self.save_images == other.save_images
        &&& self.alwayson_scripts == other.alwayson_scripts
    }

    /// The request with no setting.
    pub open spec fn spec_default() -> Self {
        Img2ImgRequest {
            init_images: None,
            resize_mode: None,
            denoising_strength: None,
            image_cfg_scale: None,
            mask: None,
            mask_blur: None,
            inpainting_fill: None,
            inpaint_full_res: None,
            inpaint_full_res_padding: None,
            inpainting_mask_invert: None,
            initial_noise_multiplier: None,
            prompt: None,
            styles: None,
            seed: None,
            subseed: None,
            subseed_strength: None,
            seed_resize_from_h: None,
            seed_resize_from_w: None,
            sampler_name: None,
            batch_size: None,
            n_iter: None,
            steps: None,
            cfg_scale: None,
            width: None,
            height: None,
            restore_faces: None,
            tiling: None,
            do_not_save_samples: None,
            do_not_save_grid: None,
            negative_prompt: None,
            eta: None,
            s_churn: None,
            s_tmax: None,
            s_tmin: None,
            s_noise: None,
            override_settings: None,
            override_settings_restore_afterwards: None,
            script_args: None,
            sampler_index: None,
            include_init_images: None,
            script_name: None,
            send_images: None,
            save_images: None,
            alwayson_scripts: None,
        }
    }

    /// The settings of `request`, and those of `self` where `request` has none.
    pub open spec fn merged(self, request: Self) -> Self {
        Img2ImgRequest {
            init_images: or_opt(request.init_images, self.init_images),
            resize_mode: or_opt(request.resize_mode, self.resize_mode),
            denoising_strength: or_opt(request.denoising_strength, self.denoising_strength),
            image_cfg_scale: or_opt(request.image_cfg_scale, self.image_cfg_scale),
            mask: or_opt(request.mask, self.mask),
            mask_blur: or_opt(request.mask_blur, self.mask_blur),
            inpainting_fill: or_opt(request.inpainting_fill, self.inpainting_fill),
            inpaint_full_res: or_opt(request.inpaint_full_res, self.inpaint_full_res),
            inpaint_full_res_padding: or_opt(request.inpaint_full_res_padding, self.inpaint_full_res_padding),
            inpainting_mask_invert: or_opt(request.inpainting_mask_invert, self.inpainting_mask_invert),
            initial_noise_multiplier: or_opt(request.initial_noise_multiplier, self.initial_noise_multiplier),
            prompt: or_opt(request.prompt, self.prompt),
            styles: or_opt(request.styles, self.styles),
            seed: or_opt(request.seed, self.seed),
            subseed: or_opt(request.subseed, self.subseed),
            subseed_strength: or_opt(request.subseed_strength, self.subseed_strength),
            seed_resize_from_h: or_opt(request.seed_resize_from_h, self.seed_resize_from_h),
            seed_resize_from_w: or_opt(request.seed_resize_from_w, self.seed_resize_from_w),
            sampler_name: or_opt(request.sampler_name, self.sampler_name),
            batch_size: or_opt(request.batch_size, self.batch_size),
            n_iter: or_opt(request.n_iter, self.n_iter),
            steps: or_opt(request.steps, self.steps),
            cfg_scale: or_opt(request.cfg_scale, self.cfg_scale),
            width: or_opt(request.width, self.width),
            height: or_opt(request.height, self.height),
            restore_faces: or_opt(request.restore_faces, self.restore_faces),
            tiling: or_opt(request.tiling, self.tiling),
            do_not_save_samples: or_opt(request.do_not_save_samples, self.do_not_save_samples),
            do_not_save_grid: or_opt(request.do_not_save_grid, self.do_not_save_grid),
            negative_prompt: or_opt(request.negative_prompt, self.negative_prompt),
            eta: or_opt(request.eta, self.eta),
            s_churn: or_opt(request.s_churn, self.s_churn),
            s_tmax: or_opt(request.s_tmax, self.s_tmax),
            s_tmin: or_opt(request.s_tmin, self.s_tmin),
            s_noise: or_opt(request.s_noise, self.s_noise),
            override_settings: or_opt(request.override_settings, self.override_settings),
            override_settings_restore_afterwards: or_opt(request.override_settings_restore_afterwards, self.override_settings_restore_afterwards),
            script_args: or_opt(request.script_args, self.script_args),
            sampler_index: or_opt(request.sampler_index, self.sampler_index),
            include_init_images: or_opt(request.include_init_images, self.include_init_images),
            script_name: or_opt(request.script_name, self.script_name),
            send_images: or_opt(request.send_images, self.send_images),
            save_images: or_opt(request.save_images, self.save_images),
            alwayson_scripts: or_opt(request.alwayson_scripts, self.alwayson_scripts),
        }
    }

    /// Merges the given settings with the request's settings: each setting of
    /// `request`, and the request's own where `request` has none.
    pub fn merge(&self, request: Self) -> (r: Self)
        ensures
            r.same(self.merged(request)),
    {
        Img2ImgRequest {
            init_images: match request.init_images {
                Some(v) => Some(v),
                None => clone_opt_strings(&self.init_images),
            },
            resize_mode: match request.resize_mode {
                Some(v) => Some(v),
                None => self.resize_mode,
            },
            denoising_strength: match request.denoising_strength {
                Some(v) => Some(v),
                None => self.denoising_strength,
            },
            image_cfg_scale: match request.image_cfg_scale {
                Some(v) => Some(v),
                None => self.image_cfg_scale,
            },
            mask: match request.mask {
                Some(v) => Some(v),
                None => clone_opt_string(&self.mask),
            },
            mask_blur: match request.mask_blur {
                Some(v) => Some(v),
                None => self.mask_blur,
            },
            inpainting_fill: match request.inpainting_fill {
                Some(v) => Some(v),
                None => self.inpainting_fill,
            },
            inpaint_full_res: match request.inpaint_full_res {
                Some(v) => Some(v),
                None => self.inpaint_full_res,
            },
            inpaint_full_res_padding: match request.inpaint_full_res_padding {
                Some(v) => Some(v),
                None => self.inpaint_full_res_padding,
            },
            inpainting_mask_invert: match request.inpainting_mask_invert {
                Some(v) => Some(v),
                None => self.inpainting_mask_invert,
            },
            initial_noise_multiplier: match request.initial_noise_multiplier {
                Some(v) => Some(v),
                None => self.initial_noise_multiplier,
            },
            prompt: match request.prompt {
                Some(v) => Some(v),
                None => clone_opt_string(&self.prompt),
            },
            styles: match request.styles {
                Some(v) => Some(v),
                None => clone_opt_strings(&self.styles),
            },
            seed: match request.seed {
                Some(v) => Some(v),
                None => self.seed,
            },
            subseed: match request.subseed {
                Some(v) => Some(v),
                None => self.subseed,
            },
            subseed_strength: match request.subseed_strength {
                Some(v) => Some(v),
                None => self.subseed_strength,
            },
            seed_resize_from_h: match request.seed_resize_from_h {
                Some(v) => Some(v),
                None => self.seed_resize_from_h,
            },
            seed_resize_from_w: match request.seed_resize_from_w {
                Some(v) => Some(v),
                None => self.seed_resize_from_w,
            },
            sampler_name: match request.sampler_name {
                Some(v) => Some(v),
                None => clone_opt_string(&self.sampler_name),
            },
            batch_size: match request.batch_size {
                Some(v) => Some(v),
                None => self.batch_size,
            },
            n_iter: match request.n_iter {
                Some(v) => Some(v),
                None => self.n_iter,
            },
            steps: match request.steps {
                Some(v) => Some(v),
                None => self.steps,
            },
            cfg_scale: match request.cfg_scale {
                Some(v) => Some(v),
                None => self.cfg_scale,
            },
            width: match request.width {
                Some(v) => Some(v),
                None => self.width,
            },
            height: match request.height {
                Some(v) => Some(v),
                None => self.height,
            },
            restore_faces: match request.restore_faces {
                Some(v) => Some(v),
                None => self.restore_faces,
            },
            tiling: match request.tiling {
                Some(v) => Some(v),
                None => self.tiling,
            },
            do_not_save_samples: match request.do_not_save_samples {
                Some(v) => Some(v),
                None => self.do_not_save_samples,
            },
            do_not_save_grid: match request.do_not_save_grid {
                Some(v) => Some(v),
                None => self.do_not_save_grid,
            },
            negative_prompt: match request.negative_prompt {
                Some(v) => Some(v),
                None => clone_opt_string(&self.negative_prompt),
            },
            eta: match request.eta {
                Some(v) => Some(v),
                None => self.eta,
            },
            s_churn: match request.s_churn {
                Some(v) => Some(v),
                None => self.s_churn,
            },
            s_tmax: match request.s_tmax {
                Some(v) => Some(v),
                None => self.s_tmax,
            },
            s_tmin: match request.s_tmin {
                Some(v) => Some(v),
                None => self.s_tmin,
            },
            s_noise: match request.s_noise {
                Some(v) => Some(v),
                None => self.s_noise,
            },
            override_settings: match request.override_settings {
                Some(v) => Some(v),
                None => clone_opt_string(&self.override_settings),
            },
            override_settings_restore_afterwards: match request.override_settings_restore_afterwards {
                Some(v) => Some(v),
                None => self.override_settings_restore_afterwards,
            },
            script_args: match request.script_args {
                Some(v) => Some(v),
                None => clone_opt_strings(&self.script_args),
            },
            sampler_index: match request.sampler_index {
                Some(v) => Some(v),
                None => clone_opt_string(&self.sampler_index),
            },
            include_init_images: match request.include_init_images {
                Some(v) => Some(v),
                None => self.include_init_images,
            },
            script_name: match request.script_name {
                Some(v) => Some(v),
                None => clone_opt_string(&self.script_name),
            },
            send_images: match request.send_images {
                Some(v) => Some(v),
                None => self.send_images,
            },
            save_images: match request.save_images {
                Some(v) => Some(v),
                None => self.save_images,
            },
            alwayson_scripts: match request.alwayson_scripts {
                Some(v) => Some(v),
                None => clone_opt_string(&self.alwayson_scripts),
            },
        }
    }

    /// Sets `prompt`.
    pub fn with_prompt(&mut self, prompt: String) -> (r: &mut Self)
        ensures
            *r == (Img2ImgRequest { prompt: Some(prompt), ..*old(self) }),
            *final(self) == *final(r),
    {
        self.prompt = Some(prompt);
        self
    }

    /// Adds styles to the request: `styles` after those it holds.
    pub fn with_styles(&mut self, styles: Vec<String>) -> (r: &mut Self)
        ensures
            *r == (Img2ImgRequest { styles: r.styles, ..*old(self) }),
            opt_seq(r.styles) == Some(
                match opt_seq(old(self).styles) {
                    Some(s) => s + styles@,
                    None => styles@,
                },
            ),
            *final(self) == *final(r),
    {
        let mut styles = styles;
        match &mut self.styles {
            Some(held) => {
                held.append(&mut styles);
            },
            None => {
                self.styles = Some(styles);
            },
        }
        self
    }

    /// Sets `denoising_strength`.
    pub fn with_denoising_strength(&mut self, denoising_strength: FloatBits) -> (r: &mut Self)
        ensures
            *r == (Img2ImgRequest { denoising_strength: Some(denoising_strength), ..*old(self) }),
            *final(self) == *final(r),
    {
        self.denoising_strength = Some(denoising_strength);
        self
    }

    /// Sets `seed`.
    pub fn with_seed(&mut self, seed: i64) -> (r: &mut Self)
        ensures
            *r == (Img2ImgRequest { seed: Some(seed), ..*old(self) }),
            *final(self) == *final(r),
    {
        self.seed = Some(seed);
        self
    }

    /// Sets `subseed`.
    pub fn with_subseed(&mut self, subseed: i64) -> (r: &mut Self)
        ensures
            *r == (Img2ImgRequest { subseed: Some(subseed), ..*old(self) }),
            *final(self) == *final(r),
    {
        self.subseed = Some(subseed);
        self
    }

    /// Sets `subseed_strength`.
    pub fn with_subseed_strength(&mut self, subseed_strength: u32) -> (r: &mut Self)
        ensures
            *r == (Img2ImgRequest { subseed_strength: Some(subseed_strength), ..*old(self) }),
            *final(self) == *final(r),
    {
        self.subseed_strength = Some(subseed_strength);
        self
    }

    /// Sets `sampler_name`.
    pub fn with_sampler_name(&mut self, sampler_name: String) -> (r: &mut Self)
        ensures
            *r == (Img2ImgRequest { sampler_name: Some(sampler_name), ..*old(self) }),
            *final(self) == *final(r),
    {
        self.sampler_name = Some(sampler_name);
        self
    }

    /// Sets `batch_size`.
    pub fn with_batch_size(&mut self, batch_size: u32) -> (r: &mut Self)
        ensures
            *r == (Img2ImgRequest { batch_size: Some(batch_size), ..*old(self) }),
            *final(self) == *final(r),
    {
        self.batch_size = Some(batch_size);
        self
    }

    /// Sets `n_iter`.
    pub fn with_n_iter(&mut self, n_iter: u32) -> (r: &mut Self)
        ensures
            *r == (Img2ImgRequest { n_iter: Some(n_iter), ..*old(self) }),
            *final(self) == *final(r),
    {
        self.n_iter = Some(n_iter);
        self
    }

    /// Sets `steps`.
    pub fn with_steps(&mut self, steps: u32) -> (r: &mut Self)
        ensures
            *r == (Img2ImgRequest { steps: Some(steps), ..*old(self) }),
            *final(self) == *final(r),
    {
        self.steps = Some(steps);
        self
    }

    /// Sets `cfg_scale`.
    pub fn with_cfg_scale(&mut self, cfg_scale: FloatBits) -> (r: &mut Self)
        ensures
            *r == (Img2ImgRequest { cfg_scale: Some(cfg_scale), ..*old(self) }),
            *final(self) == *final(r),
    {
        self.cfg_scale = Some(cfg_scale);
        self
    }

    /// Sets `width`.
    pub fn with_width(&mut self, width: u32) -> (r: &mut Self)
        ensures
            *r == (Img2ImgRequest { width: Some(width), ..*old(self) }),
            *final(self) == *final(r),
    {
        self.width = Some(width);
        self
    }

    /// Sets `height`.
    pub fn with_height(&mut self, height: u32) -> (r: &mut Self)
        ensures
            *r == (Img2ImgRequest { height: Some(height), ..*old(self) }),
            *final(self) == *final(r),
    {
        self.height = Some(height);
        self
    }

    /// Sets `restore_faces`.
    pub fn with_restore_faces(&mut self, restore_faces: bool) -> (r: &mut Self)
        ensures
            *r == (Img2ImgRequest { restore_faces: Some(restore_faces), ..*old(self) }),
            *final(self) == *final(r),
    {
        self.restore_faces = Some(restore_faces);
        self
    }

    /// Sets `tiling`.
    pub fn with_tiling(&mut self, tiling: bool) -> (r: &mut Self)
        ensures
            *r == (Img2ImgRequest { tiling: Some(tiling), ..*old(self) }),
            *final(self) == *final(r),
    {
        self.tiling = Some(tiling);
        self
    }

    /// Sets `negative_prompt`.
    pub fn with_negative_prompt(&mut self, negative_prompt: String) -> (r: &mut Self)
        ensures
            *r == (Img2ImgRequest { negative_prompt: Some(negative_prompt), ..*old(self) }),
            *final(self) == *final(r),
    {
        self.negative_prompt = Some(negative_prompt);
        self
    }

    /// Adds a style to the request.
    pub fn with_style(&mut self, style: String) -> (r: &mut Self)
        ensures
            *r == (Img2ImgRequest { styles: r.styles, ..*old(self) }),
            opt_seq(r.styles) == Some(
                match opt_seq(old(self).styles) {
                    Some(s) => s.push(style),
                    None => seq![style],
                },
            ),
            *final(self) == *final(r),
    {
        match &mut self.styles {
            Some(styles) => {
                styles.push(style);
            },
            None => {
                let mut v: Vec<String> = Vec::new();
                v.push(style);
                self.styles = Some(v);
            },
        }
        self
    }
    /// Adds a single image to the request, base64-encoded.
    pub fn with_image(&mut self, image: &[u8]) -> (r: &mut Self)
        ensures
            *r == (Img2ImgRequest { init_images: r.init_images, ..*old(self) }),
            opt_texts(r.init_images) == Some(
                match opt_texts(old(self).init_images) {
                    Some(s) => s.push(base64_encoding(image@)),
                    None => seq![base64_encoding(image@)],
                },
            ),
            r.init_images matches Some(v) && (v@.len() > 0 && base64_decoding(v@.last()@) == Some(image@)),
            *final(self) == *final(r),
    {
        let text = encode_base64(image);
        match &mut self.init_images {
            Some(images) => {
                images.push(text);
            },
            None => {
                let mut v: Vec<String> = Vec::new();
                v.push(text);
                self.init_images = Some(v);
            },
        }
        self
    }

    /// Adds multiple images to the request, base64-encoded.
    pub fn with_images(&mut self, images: Vec<Vec<u8>>) -> (r: &mut Self)
        ensures
            *r == (Img2ImgRequest { init_images: r.init_images, ..*old(self) }),
            opt_texts(r.init_images) == Some(
                match opt_texts(old(self).init_images) {
                    Some(s) => s + encoded_all(images@),
                    None => encoded_all(images@),
                },
            ),
            *final(self) == *final(r),
    {
        let mut texts: Vec<String> = Vec::new();
        let mut i: usize = 0;
        while i < images.len()
            invariant
                i <= images.len(),
                ids(texts@) == encoded_all(images@.take(i as int)),
            decreases images.len() - i,
        {
            let text = encode_base64(images[i].as_slice());
            let ghost before = texts@;
            texts.push(text);
            proof {
                lemma_ids_push(before, text);
            }
            i += 1;
            assert(ids(texts@) =~= encoded_all(images@.take(i as int)));
        }
        assert(images@.take(i as int) =~= images@);
        match &mut self.init_images {
            Some(v) => {
                v.append(&mut texts);
            },
            None => {
                self.init_images = Some(texts);
            },
        }
        self
    }

}

impl Default for Img2ImgRequest {
    fn default() -> (r: Self)
        ensures
            r == Self::spec_default(),
    {
        Img2ImgRequest {
            init_images: None,
            resize_mode: None,
            denoising_strength: None,
            image_cfg_scale: None,
            mask: None,
            mask_blur: None,
            inpainting_fill: None,
            inpaint_full_res: None,
            inpaint_full_res_padding: None,
            inpainting_mask_invert: None,
            initial_noise_multiplier: None,
            prompt: None,
            styles: None,
            seed: None,
            subseed: None,
            subseed_strength: None,
            seed_resize_from_h: None,
            seed_resize_from_w: None,
            sampler_name: None,
            batch_size: None,
            n_iter: None,
            steps: None,
            cfg_scale: None,
            width: None,
            height: None,
            restore_faces: None,
            tiling: None,
            do_not_save_samples: None,
            do_not_save_grid: None,
            negative_prompt: None,
            eta: None,
            s_churn: None,
            s_tmax: None,
            s_tmin: None,
            s_noise: None,
            override_settings: None,
            override_settings_restore_afterwards: None,
            script_args: None,
            sampler_index: None,
            include_init_images: None,
            script_name: None,
            send_images: None,
            save_images: None,
            alwayson_scripts: None,
        }
    }
}

impl Clone for Img2ImgRequest {
    fn clone(&self) -> (r: Self)
        ensures
            r.same(*self),
    {
        Img2ImgRequest {
            init_images: clone_opt_strings(&self.init_images),
            resize_mode: self.resize_mode,
            denoising_strength: self.denoising_strength,
            image_cfg_scale: self.image_cfg_scale,
            mask: clone_opt_string(&self.mask),
            mask_blur: self.mask_blur,
            inpainting_fill: self.inpainting_fill,
            inpaint_full_res: self.inpaint_full_res,
            inpaint_full_res_padding: self.inpaint_full_res_padding,
            inpainting_mask_invert: self.inpainting_mask_invert,
            initial_noise_multiplier: self.initial_noise_multiplier,
            prompt: clone_opt_string(&self.prompt),
            styles: clone_opt_strings(&self.styles),
            seed: self.seed,
            subseed: self.subseed,
            subseed_strength: self.subseed_strength,
            seed_resize_from_h: self.seed_resize_from_h,
            seed_resize_from_w: self.seed_resize_from_w,
            sampler_name: clone_opt_string(&self.sampler_name),
            batch_size: self.batch_size,
            n_iter: self.n_iter,
            steps: self.steps,
            cfg_scale: self.cfg_scale,
            width: self.width,
            height: self.height,
            restore_faces: self.restore_faces,
            tiling: self.tiling,
            do_not_save_samples: self.do_not_save_samples,
            do_not_save_grid: self.do_not_save_grid,
            negative_prompt: clone_opt_string(&self.negative_prompt),
            eta: self.eta,
            s_churn: self.s_churn,
            s_tmax: self.s_tmax,
            s_tmin: self.s_tmin,
            s_noise: self.s_noise,
            override_settings: clone_opt_string(&self.override_settings),
            override_settings_restore_afterwards: self.override_settings_restore_afterwards,
            script_args: clone_opt_strings(&self.script_args),
            sampler_index: clone_opt_string(&self.sampler_index),
            include_init_images: self.include_init_images,
            script_name: clone_opt_string(&self.script_name),
            send_images: self.send_images,
            save_images: self.save_images,
            alwayson_scripts: clone_opt_string(&self.alwayson_scripts),
        }
    }
}

} // verus!
