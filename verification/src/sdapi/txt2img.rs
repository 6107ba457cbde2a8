use vstd::prelude::*;

use crate::float_bits::FloatBits;
use crate::sdapi::common::{clone_opt_string, clone_opt_strings, opt_seq, or_opt};

verus! {

/// Struct representing a text to image request.
#[derive(Debug, PartialEq)]
pub struct Txt2ImgRequest {
    /// Whether to enable high-resolution generation.
    pub enable_hr: Option<bool>,
    /// Strength of denoising applied to the image.
    pub denoising_strength: Option<FloatBits>,
    /// Width of the first phase.
    pub firstphase_width: Option<u32>,
    /// Height of the first phase.
    pub firstphase_height: Option<u32>,
    /// Scale of the high-resolution pass.
    pub hr_scale: Option<FloatBits>,
    /// Upscaler of the high-resolution pass.
    pub hr_upscaler: Option<String>,
    /// Steps of the second high-resolution pass.
    pub hr_second_pass_steps: Option<u32>,
    /// Width to resize to in the high-resolution pass.
    pub hr_resize_x: Option<u32>,
    /// Height to resize to in the high-resolution pass.
    pub hr_resize_y: Option<u32>,
    /// Text prompt for generating the image.
    pub prompt: Option<String>,
    /// List of style prompts for generating the image.
    pub styles: Option<Vec<String>>,
    /// Seed; `-1` asks for a random one.
    pub seed: Option<i64>,
    /// Subseed.
    pub subseed: Option<i64>,
    /// Strength of the subseed.
    pub subseed_strength: Option<u32>,
    /// Height to resize the seed image from.
    pub seed_resize_from_h: Option<i32>,
    /// Width to resize the seed image from.
    pub seed_resize_from_w: Option<i32>,
    /// Name of the sampler.
    pub sampler_name: Option<String>,
    /// Batch size.
    pub batch_size: Option<u32>,
    /// Number of iterations.
    pub n_iter: Option<u32>,
    /// Number of steps.
    pub steps: Option<u32>,
    /// CFG scale.
    pub cfg_scale: Option<FloatBits>,
    /// Width of the generated image.
    pub width: Option<u32>,
    /// Height of the generated image.
    pub height: Option<u32>,
    /// Whether to restore faces in the generated image.
    pub restore_faces: Option<bool>,
    /// Whether to tile the generated image.
    pub tiling: Option<bool>,
    /// Whether not to save samples.
    pub do_not_save_samples: Option<bool>,
    /// Whether not to save the grid.
    pub do_not_save_grid: Option<bool>,
    /// Negative prompt.
    pub negative_prompt: Option<String>,
    /// Eta value.
    pub eta: Option<u32>,
    /// Churn value.
    pub s_churn: Option<FloatBits>,
    /// Maximum temperature value.
    pub s_tmax: Option<FloatBits>,
    /// Minimum temperature value.
    pub s_tmin: Option<FloatBits>,
    /// Amount of noise.
    pub s_noise: Option<FloatBits>,
    /// Settings to override, as the JSON text of an object.
    pub override_settings: Option<String>,
    /// Whether to restore the settings afterwards.
    pub override_settings_restore_afterwards: Option<bool>,
    /// Arguments to pass to the script, each as JSON text.
    pub script_args: Option<Vec<String>>,
    /// Index of the sampler.
    pub sampler_index: Option<String>,
    /// Name of the script.
    pub script_name: Option<String>,
    /// Whether to send the generated images.
    pub send_images: Option<bool>,
    /// Whether to save the generated images.
    pub save_images: Option<bool>,
    /// Scripts to always run, as the JSON text of an object.
    pub alwayson_scripts: Option<String>,
}

impl Txt2ImgRequest {
    /// Whether two requests hold the same settings.
    pub open spec fn same(self, other: Self) -> bool {
        &&& self.enable_hr == other.enable_hr
        &&& self.denoising_strength == other.denoising_strength
        &&& self.firstphase_width == other.firstphase_width
        &&& self.firstphase_height == other.firstphase_height
        &&& self.hr_scale == other.hr_scale
        &&& self.hr_upscaler == other.hr_upscaler
        &&& self.hr_second_pass_steps == other.hr_second_pass_steps
        &&& self.hr_resize_x == other.hr_resize_x
        &&& self.hr_resize_y == other.hr_resize_y
        &&& self.prompt == other.prompt
        &&& opt_seq(self.styles) == opt_seq(other.styles)
        &&& self.seed == other.seed
        &&& self.subseed == other.subseed
        &&& self.subseed_strength == other.subseed_strength
        &&& self.seed_resize_from_h == other.seed_resize_from_h
        &&& self.seed_resize_from_w == other.seed_resize_from_w
        &&& self.sampler_name == other.sampler_name
        &&& self.batch_size == other.batch_size
        &&& self.n_iter == other.n_iter
        &&& self.steps == other.steps
        &&& self.cfg_scale == other.cfg_scale
        &&& self.width == other.width
        &&& self.height == other.height
        &&& self.restore_faces == other.restore_faces
        &&& self.tiling == other.tiling
        &&& self.do_not_save_samples == other.do_not_save_samples
        &&& self.do_not_save_grid == other.do_not_save_grid
        &&& self.negative_prompt == other.negative_prompt
        &&& self.eta == other.eta
        &&& self.s_churn == other.s_churn
        &&& self.s_tmax == other.s_tmax
        &&& self.s_tmin == other.s_tmin
        &&& self.s_noise == other.s_noise
        &&& self.override_settings == other.override_settings
        &&& self.override_settings_restore_afterwards == other.override_settings_restore_afterwards
        &&& opt_seq(self.script_args) == opt_seq(other.script_args)
        &&& self.sampler_index == other.sampler_index
        &&& self.script_name == other.script_name
        &&& self.send_images == other.send_images
        &&& self.save_images == other.save_images
        &&& self.alwayson_scripts == other.alwayson_scripts
    }

    /// The request with no setting.
    pub open spec fn spec_default() -> Self {
        Txt2ImgRequest {
            enable_hr: None,
            denoising_strength: None,
            firstphase_width: None,
            firstphase_height: None,
            hr_scale: None,
            hr_upscaler: None,
            hr_second_pass_steps: None,
            hr_resize_x: None,
            hr_resize_y: None,
            prompt: None,
            styles: None,
            seed: None,
            subseed: None,
            subseed_strength: None,
            seed_resize_from_h: None,
            seed_resize_from_w: None,
            sampler_name: None,
            batch_size: None,
            n_iter: None,
            steps: None,
            cfg_scale: None,
            width: None,
            height: None,
            restore_faces: None,
            tiling: None,
            do_not_save_samples: None,
            do_not_save_grid: None,
            negative_prompt: None,
            eta: None,
            s_churn: None,
            s_tmax: None,
            s_tmin: None,
            s_noise: None,
            override_settings: None,
            override_settings_restore_afterwards: None,
            script_args: None,
            sampler_index: None,
            script_name: None,
            send_images: None,
            save_images: None,
            alwayson_scripts: None,
        }
    }

    /// The settings of `request`, and those of `self` where `request` has none.
    pub open spec fn merged(self, request: Self) -> Self {
        Txt2ImgRequest {
            enable_hr: or_opt(request.enable_hr, self.enable_hr),
            denoising_strength: or_opt(request.denoising_strength, self.denoising_strength),
            firstphase_width: or_opt(request.firstphase_width, self.firstphase_width),
            firstphase_height: or_opt(request.firstphase_height, self.firstphase_height),
            hr_scale: or_opt(request.hr_scale, self.hr_scale),
            hr_upscaler: or_opt(request.hr_upscaler, self.hr_upscaler),
            hr_second_pass_steps: or_opt(request.hr_second_pass_steps, self.hr_second_pass_steps),
            hr_resize_x: or_opt(request.hr_resize_x, self.hr_resize_x),
            hr_resize_y: or_opt(request.hr_resize_y, self.hr_resize_y),
            prompt: or_opt(request.prompt, self.prompt),
            styles: or_opt(request.styles, self.styles),
            seed: or_opt(request.seed, self.seed),
            subseed: or_opt(request.subseed, self.subseed),
            subseed_strength: or_opt(request.subseed_strength, self.subseed_strength),
            seed_resize_from_h: or_opt(request.seed_resize_from_h, self.seed_resize_from_h),
            seed_resize_from_w: or_opt(request.seed_resize_from_w, self.seed_resize_from_w),
            sampler_name: or_opt(request.sampler_name, self.sampler_name),
            batch_size: or_opt(request.batch_size, self.batch_size),
            n_iter: or_opt(request.n_iter, self.n_iter),
            steps: or_opt(request.steps, self.steps),
            cfg_scale: or_opt(request.cfg_scale, self.cfg_scale),
            width: or_opt(request.width, self.width),
            height: or_opt(request.height, self.height),
            restore_faces: or_opt(request.restore_faces, self.restore_faces),
            tiling: or_opt(request.tiling, self.tiling),
            do_not_save_samples: or_opt(request.do_not_save_samples, self.do_not_save_samples),
            do_not_save_grid: or_opt(request.do_not_save_grid, self.do_not_save_grid),
            negative_prompt: or_opt(request.negative_prompt, self.negative_prompt),
            eta: or_opt(request.eta, self.eta),
            s_churn: or_opt(request.s_churn, self.s_churn),
            s_tmax: or_opt(request.s_tmax, self.s_tmax),
            s_tmin: or_opt(request.s_tmin, self.s_tmin),
            s_noise: or_opt(request.s_noise, self.s_noise),
            override_settings: or_opt(request.override_settings, self.override_settings),
            override_settings_restore_afterwards: or_opt(request.override_settings_restore_afterwards, self.override_settings_restore_afterwards),
            script_args: or_opt(request.script_args, self.script_args),
            sampler_index: or_opt(request.sampler_index, self.sampler_index),
            script_name: or_opt(request.script_name, self.script_name),
            send_images: or_opt(request.send_images, self.send_images),
            save_images: or_opt(request.save_images, self.save_images),
            alwayson_scripts: or_opt(request.alwayson_scripts, self.alwayson_scripts),
        }
    }

    /// Merges the given settings with the request's settings: each setting of
    /// `request`, and the request's own where `request` has none.
    pub fn merge(&self, request: Self) -> (r: Self)
        ensures
            r.same(self.merged(request)),
    {
        Txt2ImgRequest {
            enable_hr: match request.enable_hr {
                Some(v) => Some(v),
                None => self.enable_hr,
            },
            denoising_strength: match request.denoising_strength {
                Some(v) => Some(v),
                None => self.denoising_strength,
            },
            firstphase_width: match request.firstphase_width {
                Some(v) => Some(v),
                None => self.firstphase_width,
            },
            firstphase_height: match request.firstphase_height {
                Some(v) => Some(v),
                None => self.firstphase_height,
            },
            hr_scale: match request.hr_scale {
                Some(v) => Some(v),
                None => self.hr_scale,
            },
            hr_upscaler: match request.hr_upscaler {
                Some(v) => Some(v),
                None => clone_opt_string(&self.hr_upscaler),
            },
            hr_second_pass_steps: match request.hr_second_pass_steps {
                Some(v) => Some(v),
                None => self.hr_second_pass_steps,
            },
            hr_resize_x: match request.hr_resize_x {
                Some(v) => Some(v),
                None => self.hr_resize_x,
            },
            hr_resize_y: match request.hr_resize_y {
                Some(v) => Some(v),
                None => self.hr_resize_y,
            },
            prompt: match request.prompt {
                Some(v) => Some(v),
                None => clone_opt_string(&self.prompt),
            },
            styles: match request.styles {
                Some(v) => Some(v),
                None => clone_opt_strings(&self.styles),
            },
            seed: match request.seed {
                Some(v) => Some(v),
                None => self.seed,
            },
            subseed: match request.subseed {
                Some(v) => Some(v),
                None => self.subseed,
            },
            subseed_strength: match request.subseed_strength {
                Some(v) => Some(v),
                None => self.subseed_strength,
            },
            seed_resize_from_h: match request.seed_resize_from_h {
                Some(v) => Some(v),
                None => self.seed_resize_from_h,
            },
            seed_resize_from_w: match request.seed_resize_from_w {
                Some(v) => Some(v),
                None => self.seed_resize_from_w,
            },
            sampler_name: match request.sampler_name {
                Some(v) => Some(v),
                None => clone_opt_string(&self.sampler_name),
            },
            batch_size: match request.batch_size {
                Some(v) => Some(v),
                None => self.batch_size,
            },
            n_iter: match request.n_iter {
                Some(v) => Some(v),
                None => self.n_iter,
            },
            steps: match request.steps {
                Some(v) => Some(v),
                None => self.steps,
            },
            cfg_scale: match request.cfg_scale {
                Some(v) => Some(v),
                None => self.cfg_scale,
            },
            width: match request.width {
                Some(v) => Some(v),
                None => self.width,
            },
            height: match request.height {
                Some(v) => Some(v),
                None => self.height,
            },
            restore_faces: match request.restore_faces {
                Some(v) => Some(v),
                None => self.restore_faces,
            },
            tiling: match request.tiling {
                Some(v) => Some(v),
                None => self.tiling,
            },
            do_not_save_samples: match request.do_not_save_samples {
                Some(v) => Some(v),
                None => self.do_not_save_samples,
            },
            do_not_save_grid: match request.do_not_save_grid {
                Some(v) => Some(v),
                None => self.do_not_save_grid,
            },
            negative_prompt: match request.negative_prompt {
                Some(v) => Some(v),
                None => clone_opt_string(&self.negative_prompt),
            },
            eta: match request.eta {
                Some(v) => Some(v),
                None => self.eta,
            },
            s_churn: match request.s_churn {
                Some(v) => Some(v),
                None => self.s_churn,
            },
            s_tmax: match request.s_tmax {
                Some(v) => Some(v),
                None => self.s_tmax,
            },
            s_tmin: match request.s_tmin {
                Some(v) => Some(v),
                None => self.s_tmin,
            },
            s_noise: match request.s_noise {
                Some(v) => Some(v),
                None => self.s_noise,
            },
            override_settings: match request.override_settings {
                Some(v) => Some(v),
                None => clone_opt_string(&self.override_settings),
            },
            override_settings_restore_afterwards: match request.override_settings_restore_afterwards {
                Some(v) => Some(v),
                None => self.override_settings_restore_afterwards,
            },
            script_args: match request.script_args {
                Some(v) => Some(v),
                None => clone_opt_strings(&self.script_args),
            },
            sampler_index: match request.sampler_index {
                Some(v) => Some(v),
                None => clone_opt_string(&self.sampler_index),
            },
            script_name: match request.script_name {
                Some(v) => Some(v),
                None => clone_opt_string(&self.script_name),
            },
            send_images: match request.send_images {
                Some(v) => Some(v),
                None => self.send_images,
            },
            save_images: match request.save_images {
                Some(v) => Some(v),
                None => self.save_images,
            },
            alwayson_scripts: match request.alwayson_scripts {
                Some(v) => Some(v),
                None => clone_opt_string(&self.alwayson_scripts),
            },
        }
    }

    /// Sets `prompt`.
    pub fn with_prompt(&mut self, prompt: String) -> (r: &mut Self)
        ensures
            *r == (Txt2ImgRequest { prompt: Some(prompt), ..*old(self) }),
            *final(self) == *final(r),
    {
        self.prompt = Some(prompt);
        self
    }

    /// Adds styles to the request: `styles` after those it holds.
    pub fn with_styles(&mut self, styles: Vec<String>) -> (r: &mut Self)
        ensures
            *r == (Txt2ImgRequest { styles: r.styles, ..*old(self) }),
            opt_seq(r.styles) == Some(
                match opt_seq(old(self).styles) {
                    Some(s) => s + styles@,
                    None => styles@,
                },
            ),
            *final(self) == *final(r),
    {
        let mut styles = styles;
        match &mut self.styles {
            Some(held) => {
                held.append(&mut styles);
            },
            None => {
                self.styles = Some(styles);
            },
        }
        self
    }

    /// Sets `seed`.
    pub fn with_seed(&mut self, seed: i64) -> (r: &mut Self)
        ensures
            *r == (Txt2ImgRequest { seed: Some(seed), ..*old(self) }),
            *final(self) == *final(r),
    {
        self.seed = Some(seed);
        self
    }

    /// Sets `subseed`.
    pub fn with_subseed(&mut self, subseed: i64) -> (r: &mut Self)
        ensures
            *r == (Txt2ImgRequest { subseed: Some(subseed), ..*old(self) }),
            *final(self) == *final(r),
    {
        self.subseed = Some(subseed);
        self
    }

    /// Sets `subseed_strength`.
    pub fn with_subseed_strength(&mut self, subseed_strength: u32) -> (r: &mut Self)
        ensures
            *r == (Txt2ImgRequest { subseed_strength: Some(subseed_strength), ..*old(self) }),
            *final(self) == *final(r),
    {
        self.subseed_strength = Some(subseed_strength);
        self
    }

    /// Sets `sampler_name`.
    pub fn with_sampler_name(&mut self, sampler_name: String) -> (r: &mut Self)
        ensures
            *r == (Txt2ImgRequest { sampler_name: Some(sampler_name), ..*old(self) }),
            *final(self) == *final(r),
    {
        self.sampler_name = Some(sampler_name);
        self
    }

    /// Sets `batch_size`.
    pub fn with_batch_size(&mut self, batch_size: u32) -> (r: &mut Self)
        ensures
            *r == (Txt2ImgRequest { batch_size: Some(batch_size), ..*old(self) }),
            *final(self) == *final(r),
    {
        self.batch_size = Some(batch_size);
        self
    }

    /// Sets `n_iter`.
    pub fn with_n_iter(&mut self, n_iter: u32) -> (r: &mut Self)
        ensures
            *r == (Txt2ImgRequest { n_iter: Some(n_iter), ..*old(self) }),
            *final(self) == *final(r),
    {
        self.n_iter = Some(n_iter);
        self
    }

    /// Sets `steps`.
    pub fn with_steps(&mut self, steps: u32) -> (r: &mut Self)
        ensures
            *r == (Txt2ImgRequest { steps: Some(steps), ..*old(self) }),
            *final(self) == *final(r),
    {
        self.steps = Some(steps);
        self
    }

    /// Sets `cfg_scale`.
    pub fn with_cfg_scale(&mut self, cfg_scale: FloatBits) -> (r: &mut Self)
        ensures
            *r == (Txt2ImgRequest { cfg_scale: Some(cfg_scale), ..*old(self) }),
            *final(self) == *final(r),
    {
        self.cfg_scale = Some(cfg_scale);
        self
    }

    /// Sets `width`.
    pub fn with_width(&mut self, width: u32) -> (r: &mut Self)
        ensures
            *r == (Txt2ImgRequest { width: Some(width), ..*old(self) }),
            *final(self) == *final(r),
    {
        self.width = Some(width);
        self
    }

    /// Sets `height`.
    pub fn with_height(&mut self, height: u32) -> (r: &mut Self)
        ensures
            *r == (Txt2ImgRequest { height: Some(height), ..*old(self) }),
            *final(self) == *final(r),
    {
        self.height = Some(height);
        self
    }

    /// Sets `restore_faces`.
    pub fn with_restore_faces(&mut self, restore_faces: bool) -> (r: &mut Self)
        ensures
            *r == (Txt2ImgRequest { restore_faces: Some(restore_faces), ..*old(self) }),
            *final(self) == *final(r),
    {
        self.restore_faces = Some(restore_faces);
        self
    }

    /// Sets `tiling`.
    pub fn with_tiling(&mut self, tiling: bool) -> (r: &mut Self)
        ensures
            *r == (Txt2ImgRequest { tiling: Some(tiling), ..*old(self) }),
            *final(self) == *final(r),
    {
        self.tiling = Some(tiling);
        self
    }

    /// Sets `negative_prompt`.
    pub fn with_negative_prompt(&mut self, negative_prompt: String) -> (r: &mut Self)
        ensures
            *r == (Txt2ImgRequest { negative_prompt: Some(negative_prompt), ..*old(self) }),
            *final(self) == *final(r),
    {
        self.negative_prompt = Some(negative_prompt);
        self
    }

    /// Adds a style to the request.
    pub fn with_style(&mut self, style: String) -> (r: &mut Self)
        ensures
            *r == (Txt2ImgRequest { styles: r.styles, ..*old(self) }),
            opt_seq(r.styles) == Some(
                match opt_seq(old(self).styles) {
                    Some(s) => s.push(style),
                    None => seq![style],
                },
            ),
            *final(self) == *final(r),
    {
        match &mut self.styles {
            Some(styles) => {
                styles.push(style);
            },
            None => {
                let mut v: Vec<String> = Vec::new();
                v.push(style);
                self.styles = Some(v);
            },
        }
        self
    }

}

impl Default for Txt2ImgRequest {
    fn default() -> (r: Self)
        ensures
            r == Self::spec_default(),
    {
        Txt2ImgRequest {
            enable_hr: None,
            denoising_strength: None,
            firstphase_width: None,
            firstphase_height: None,
            hr_scale: None,
            hr_upscaler: None,
            hr_second_pass_steps: None,
            hr_resize_x: None,
            hr_resize_y: None,
            prompt: None,
            styles: None,
            seed: None,
            subseed: None,
            subseed_strength: None,
            seed_resize_from_h: None,
            seed_resize_from_w: None,
            sampler_name: None,
            batch_size: None,
            n_iter: None,
            steps: None,
            cfg_scale: None,
            width: None,
            height: None,
            restore_faces: None,
            tiling: None,
            do_not_save_samples: None,
            do_not_save_grid: None,
            negative_prompt: None,
            eta: None,
            s_churn: None,
            s_tmax: None,
            s_tmin: None,
            s_noise: None,
            override_settings: None,
            override_settings_restore_afterwards: None,
            script_args: None,
            sampler_index: None,
            script_name: None,
            send_images: None,
            save_images: None,
            alwayson_scripts: None,
        }
    }
}

impl Clone for Txt2ImgRequest {
    fn clone(&self) -> (r: Self)
        ensures
            r.same(*self),
    {
        Txt2ImgRequest {
            enable_hr: self.enable_hr,
            denoising_strength: self.denoising_strength,
            firstphase_width: self.firstphase_width,
            firstphase_height: self.firstphase_height,
            hr_scale: self.hr_scale,
            hr_upscaler: clone_opt_string(&self.hr_upscaler),
            hr_second_pass_steps: self.hr_second_pass_steps,
            hr_resize_x: self.hr_resize_x,
            hr_resize_y: self.hr_resize_y,
            prompt: clone_opt_string(&self.prompt),
            styles: clone_opt_strings(&self.styles),
            seed: self.seed,
            subseed: self.subseed,
            subseed_strength: self.subseed_strength,
            seed_resize_from_h: self.seed_resize_from_h,
            seed_resize_from_w: self.seed_resize_from_w,
            sampler_name: clone_opt_string(&self.sampler_name),
            batch_size: self.batch_size,
            n_iter: self.n_iter,
            steps: self.steps,
            cfg_scale: self.cfg_scale,
            width: self.width,
            height: self.height,
            restore_faces: self.restore_faces,
            tiling: self.tiling,
            do_not_save_samples: self.do_not_save_samples,
            do_not_save_grid: self.do_not_save_grid,
            negative_prompt: clone_opt_string(&self.negative_prompt),
            eta: self.eta,
            s_churn: self.s_churn,
            s_tmax: self.s_tmax,
            s_tmin: self.s_tmin,
            s_noise: self.s_noise,
            override_settings: clone_opt_string(&self.override_settings),
            override_settings_restore_afterwards: self.override_settings_restore_afterwards,
            script_args: clone_opt_strings(&self.script_args),
            sampler_index: clone_opt_string(&self.sampler_index),
            script_name: clone_opt_string(&self.script_name),
            send_images: self.send_images,
            save_images: self.save_images,
            alwayson_scripts: clone_opt_string(&self.alwayson_scripts),
        }
    }
}

} // verus!
