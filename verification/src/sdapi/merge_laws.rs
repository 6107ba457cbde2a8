//! Which settings a merge of two requests keeps.

use vstd::prelude::*;

use crate::sdapi::img2img::Img2ImgRequest;
use crate::sdapi::txt2img::Txt2ImgRequest;

verus! {

/// Merging `request` into `base` keeps every setting that `request` has,
/// and takes the setting of `base` only where `request` has none.
pub proof fn law_txt2img_merge_request_wins(base: Txt2ImgRequest, request: Txt2ImgRequest)
    ensures
        request.enable_hr is Some ==> base.merged(request).enable_hr == request.enable_hr,
        request.enable_hr is None ==> base.merged(request).enable_hr == base.enable_hr,
        request.denoising_strength is Some ==> base.merged(request).denoising_strength == request.denoising_strength,
        request.denoising_strength is None ==> base.merged(request).denoising_strength == base.denoising_strength,
        request.firstphase_width is Some ==> base.merged(request).firstphase_width == request.firstphase_width,
        request.firstphase_width is None ==> base.merged(request).firstphase_width == base.firstphase_width,
        request.firstphase_height is Some ==> base.merged(request).firstphase_height == request.firstphase_height,
        request.firstphase_height is None ==> base.merged(request).firstphase_height == base.firstphase_height,
        request.hr_scale is Some ==> base.merged(request).hr_scale == request.hr_scale,
        request.hr_scale is None ==> base.merged(request).hr_scale == base.hr_scale,
        request.hr_upscaler is Some ==> base.merged(request).hr_upscaler == request.hr_upscaler,
        request.hr_upscaler is None ==> base.merged(request).hr_upscaler == base.hr_upscaler,
        request.hr_second_pass_steps is Some ==> base.merged(request).hr_second_pass_steps == request.hr_second_pass_steps,
        request.hr_second_pass_steps is None ==> base.merged(request).hr_second_pass_steps == base.hr_second_pass_steps,
        request.hr_resize_x is Some ==> base.merged(request).hr_resize_x == request.hr_resize_x,
        request.hr_resize_x is None ==> base.merged(request).hr_resize_x == base.hr_resize_x,
        request.hr_resize_y is Some ==> base.merged(request).hr_resize_y == request.hr_resize_y,
        request.hr_resize_y is None ==> base.merged(request).hr_resize_y == base.hr_resize_y,
        request.prompt is Some ==> base.merged(request).prompt == request.prompt,
        request.prompt is None ==> base.merged(request).prompt == base.prompt,
        request.styles is Some ==> base.merged(request).styles == request.styles,
        request.styles is None ==> base.merged(request).styles == base.styles,
        request.seed is Some ==> base.merged(request).seed == request.seed,
        request.seed is None ==> base.merged(request).seed == base.seed,
        request.subseed is Some ==> base.merged(request).subseed == request.subseed,
        request.subseed is None ==> base.merged(request).subseed == base.subseed,
        request.subseed_strength is Some ==> base.merged(request).subseed_strength == request.subseed_strength,
        request.subseed_strength is None ==> base.merged(request).subseed_strength == base.subseed_strength,
        request.seed_resize_from_h is Some ==> base.merged(request).seed_resize_from_h == request.seed_resize_from_h,
        request.seed_resize_from_h is None ==> base.merged(request).seed_resize_from_h == base.seed_resize_from_h,
        request.seed_resize_from_w is Some ==> base.merged(request).seed_resize_from_w == request.seed_resize_from_w,
        request.seed_resize_from_w is None ==> base.merged(request).seed_resize_from_w == base.seed_resize_from_w,
        request.sampler_name is Some ==> base.merged(request).sampler_name == request.sampler_name,
        request.sampler_name is None ==> base.merged(request).sampler_name == base.sampler_name,
        request.batch_size is Some ==> base.merged(request).batch_size == request.batch_size,
        request.batch_size is None ==> base.merged(request).batch_size == base.batch_size,
        request.n_iter is Some ==> base.merged(request).n_iter == request.n_iter,
        request.n_iter is None ==> base.merged(request).n_iter == base.n_iter,
        request.steps is Some ==> base.merged(request).steps == request.steps,
        request.steps is None ==> base.merged(request).steps == base.steps,
        request.cfg_scale is Some ==> base.merged(request).cfg_scale == request.cfg_scale,
        request.cfg_scale is None ==> base.merged(request).cfg_scale == base.cfg_scale,
        request.width is Some ==> base.merged(request).width == request.width,
        request.width is None ==> base.merged(request).width == base.width,
        request.height is Some ==> base.merged(request).height == request.height,
        request.height is None ==> base.merged(request).height == base.height,
        request.restore_faces is Some ==> base.merged(request).restore_faces == request.restore_faces,
        request.restore_faces is None ==> base.merged(request).restore_faces == base.restore_faces,
        request.tiling is Some ==> base.merged(request).tiling == request.tiling,
        request.tiling is None ==> base.merged(request).tiling == base.tiling,
        request.do_not_save_samples is Some ==> base.merged(request).do_not_save_samples == request.do_not_save_samples,
        request.do_not_save_samples is None ==> base.merged(request).do_not_save_samples == base.do_not_save_samples,
        request.do_not_save_grid is Some ==> base.merged(request).do_not_save_grid == request.do_not_save_grid,
        request.do_not_save_grid is None ==> base.merged(request).do_not_save_grid == base.do_not_save_grid,
        request.negative_prompt is Some ==> base.merged(request).negative_prompt == request.negative_prompt,
        request.negative_prompt is None ==> base.merged(request).negative_prompt == base.negative_prompt,
        request.eta is Some ==> base.merged(request).eta == request.eta,
        request.eta is None ==> base.merged(request).eta == base.eta,
        request.s_churn is Some ==> base.merged(request).s_churn == request.s_churn,
        request.s_churn is None ==> base.merged(request).s_churn == base.s_churn,
        request.s_tmax is Some ==> base.merged(request).s_tmax == request.s_tmax,
        request.s_tmax is None ==> base.merged(request).s_tmax == base.s_tmax,
        request.s_tmin is Some ==> base.merged(request).s_tmin == request.s_tmin,
        request.s_tmin is None ==> base.merged(request).s_tmin == base.s_tmin,
        request.s_noise is Some ==> base.merged(request).s_noise == request.s_noise,
        request.s_noise is None ==> base.merged(request).s_noise == base.s_noise,
        request.override_settings is Some ==> base.merged(request).override_settings == request.override_settings,
        request.override_settings is None ==> base.merged(request).override_settings == base.override_settings,
        request.override_settings_restore_afterwards is Some ==> base.merged(request).override_settings_restore_afterwards == request.override_settings_restore_afterwards,
        request.override_settings_restore_afterwards is None ==> base.merged(request).override_settings_restore_afterwards == base.override_settings_restore_afterwards,
        request.script_args is Some ==> base.merged(request).script_args == request.script_args,
        request.script_args is None ==> base.merged(request).script_args == base.script_args,
        request.sampler_index is Some ==> base.merged(request).sampler_index == request.sampler_index,
        request.sampler_index is None ==> base.merged(request).sampler_index == base.sampler_index,
        request.script_name is Some ==> base.merged(request).script_name == request.script_name,
        request.script_name is None ==> base.merged(request).script_name == base.script_name,
        request.send_images is Some ==> base.merged(request).send_images == request.send_images,
        request.send_images is None ==> base.merged(request).send_images == base.send_images,
        request.save_images is Some ==> base.merged(request).save_images == request.save_images,
        request.save_images is None ==> base.merged(request).save_images == base.save_images,
        request.alwayson_scripts is Some ==> base.merged(request).alwayson_scripts == request.alwayson_scripts,
        request.alwayson_scripts is None ==> base.merged(request).alwayson_scripts == base.alwayson_scripts,
{
}

/// Merging `request` into `base` keeps every setting that `request` has,
/// and takes the setting of `base` only where `request` has none.
pub proof fn law_img2img_merge_request_wins(base: Img2ImgRequest, request: Img2ImgRequest)
    ensures
        request.init_images is Some ==> base.merged(request).init_images == request.init_images,
        request.init_images is None ==> base.merged(request).init_images == base.init_images,
        request.resize_mode is Some ==> base.merged(request).resize_mode == request.resize_mode,
        request.resize_mode is None ==> base.merged(request).resize_mode == base.resize_mode,
        request.denoising_strength is Some ==> base.merged(request).denoising_strength == request.denoising_strength,
        request.denoising_strength is None ==> base.merged(request).denoising_strength == base.denoising_strength,
        request.image_cfg_scale is Some ==> base.merged(request).image_cfg_scale == request.image_cfg_scale,
        request.image_cfg_scale is None ==> base.merged(request).image_cfg_scale == base.image_cfg_scale,
        request.mask is Some ==> base.merged(request).mask == request.mask,
        request.mask is None ==> base.merged(request).mask == base.mask,
        request.mask_blur is Some ==> base.merged(request).mask_blur == request.mask_blur,
        request.mask_blur is None ==> base.merged(request).mask_blur == base.mask_blur,
        request.inpainting_fill is Some ==> base.merged(request).inpainting_fill == request.inpainting_fill,
        request.inpainting_fill is None ==> base.merged(request).inpainting_fill == base.inpainting_fill,
        request.inpaint_full_res is Some ==> base.merged(request).inpaint_full_res == request.inpaint_full_res,
        request.inpaint_full_res is None ==> base.merged(request).inpaint_full_res == base.inpaint_full_res,
        request.inpaint_full_res_padding is Some ==> base.merged(request).inpaint_full_res_padding == request.inpaint_full_res_padding,
        request.inpaint_full_res_padding is None ==> base.merged(request).inpaint_full_res_padding == base.inpaint_full_res_padding,
        request.inpainting_mask_invert is Some ==> base.merged(request).inpainting_mask_invert == request.inpainting_mask_invert,
        request.inpainting_mask_invert is None ==> base.merged(request).inpainting_mask_invert == base.inpainting_mask_invert,
        request.initial_noise_multiplier is Some ==> base.merged(request).initial_noise_multiplier == request.initial_noise_multiplier,
        request.initial_noise_multiplier is None ==> base.merged(request).initial_noise_multiplier == base.initial_noise_multiplier,
        request.prompt is Some ==> base.merged(request).prompt == request.prompt,
        request.prompt is None ==> base.merged(request).prompt == base.prompt,
        request.styles is Some ==> base.merged(request).styles == request.styles,
        request.styles is None ==> base.merged(request).styles == base.styles,
        request.seed is Some ==> base.merged(request).seed == request.seed,
        request.seed is None ==> base.merged(request).seed == base.seed,
        request.subseed is Some ==> base.merged(request).subseed == request.subseed,
        request.subseed is None ==> base.merged(request).subseed == base.subseed,
        request.subseed_strength is Some ==> base.merged(request).subseed_strength == request.subseed_strength,
        request.subseed_strength is None ==> base.merged(request).subseed_strength == base.subseed_strength,
        request.seed_resize_from_h is Some ==> base.merged(request).seed_resize_from_h == request.seed_resize_from_h,
        request.seed_resize_from_h is None ==> base.merged(request).seed_resize_from_h == base.seed_resize_from_h,
        request.seed_resize_from_w is Some ==> base.merged(request).seed_resize_from_w == request.seed_resize_from_w,
        request.seed_resize_from_w is None ==> base.merged(request).seed_resize_from_w == base.seed_resize_from_w,
        request.sampler_name is Some ==> base.merged(request).sampler_name == request.sampler_name,
        request.sampler_name is None ==> base.merged(request).sampler_name == base.sampler_name,
        request.batch_size is Some ==> base.merged(request).batch_size == request.batch_size,
        request.batch_size is None ==> base.merged(request).batch_size == base.batch_size,
        request.n_iter is Some ==> base.merged(request).n_iter == request.n_iter,
        request.n_iter is None ==> base.merged(request).n_iter == base.n_iter,
        request.steps is Some ==> base.merged(request).steps == request.steps,
        request.steps is None ==> base.merged(request).steps == base.steps,
        request.cfg_scale is Some ==> base.merged(request).cfg_scale == request.cfg_scale,
        request.cfg_scale is None ==> base.merged(request).cfg_scale == base.cfg_scale,
        request.width is Some ==> base.merged(request).width == request.width,
        request.width is None ==> base.merged(request).width == base.width,
        request.height is Some ==> base.merged(request).height == request.height,
        request.height is None ==> base.merged(request).height == base.height,
        request.restore_faces is Some ==> base.merged(request).restore_faces == request.restore_faces,
        request.restore_faces is None ==> base.merged(request).restore_faces == base.restore_faces,
        request.tiling is Some ==> base.merged(request).tiling == request.tiling,
        request.tiling is None ==> base.merged(request).tiling == base.tiling,
        request.do_not_save_samples is Some ==> base.merged(request).do_not_save_samples == request.do_not_save_samples,
        request.do_not_save_samples is None ==> base.merged(request).do_not_save_samples == base.do_not_save_samples,
        request.do_not_save_grid is Some ==> base.merged(request).do_not_save_grid == request.do_not_save_grid,
        request.do_not_save_grid is None ==> base.merged(request).do_not_save_grid == base.do_not_save_grid,
        request.negative_prompt is Some ==> base.merged(request).negative_prompt == request.negative_prompt,
        request.negative_prompt is None ==> base.merged(request).negative_prompt == base.negative_prompt,
        request.eta is Some ==> base.merged(request).eta == request.eta,
        request.eta is None ==> base.merged(request).eta == base.eta,
        request.s_churn is Some ==> base.merged(request).s_churn == request.s_churn,
        request.s_churn is None ==> base.merged(request).s_churn == base.s_churn,
        request.s_tmax is Some ==> base.merged(request).s_tmax == request.s_tmax,
        request.s_tmax is None ==> base.merged(request).s_tmax == base.s_tmax,
        request.s_tmin is Some ==> base.merged(request).s_tmin == request.s_tmin,
        request.s_tmin is None ==> base.merged(request).s_tmin == base.s_tmin,
        request.s_noise is Some ==> base.merged(request).s_noise == request.s_noise,
        request.s_noise is None ==> base.merged(request).s_noise == base.s_noise,
        request.override_settings is Some ==> base.merged(request).override_settings == request.override_settings,
        request.override_settings is None ==> base.merged(request).override_settings == base.override_settings,
        request.override_settings_restore_afterwards is Some ==> base.merged(request).override_settings_restore_afterwards == request.override_settings_restore_afterwards,
        request.override_settings_restore_afterwards is None ==> base.merged(request).override_settings_restore_afterwards == base.override_settings_restore_afterwards,
        request.script_args is Some ==> base.merged(request).script_args == request.script_args,
        request.script_args is None ==> base.merged(request).script_args == base.script_args,
        request.sampler_index is Some ==> base.merged(request).sampler_index == request.sampler_index,
        request.sampler_index is None ==> base.merged(request).sampler_index == base.sampler_index,
        request.include_init_images is Some ==> base.merged(request).include_init_images == request.include_init_images,
        request.include_init_images is None ==> base.merged(request).include_init_images == base.include_init_images,
        request.script_name is Some ==> base.merged(request).script_name == request.script_name,
        request.script_name is None ==> base.merged(request).script_name == base.script_name,
        request.send_images is Some ==> base.merged(request).send_images == request.send_images,
        request.send_images is None ==> base.merged(request).send_images == base.send_images,
        request.save_images is Some ==> base.merged(request).save_images == request.save_images,
        request.save_images is None ==> base.merged(request).save_images == base.save_images,
        request.alwayson_scripts is Some ==> base.merged(request).alwayson_scripts == request.alwayson_scripts,
        request.alwayson_scripts is None ==> base.merged(request).alwayson_scripts == base.alwayson_scripts,
{
}

} // verus!
