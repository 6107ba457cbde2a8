use vstd::prelude::*;

use crate::float_bits::FloatBits;
use crate::sdapi::encoding::{base64_decoding, decode_base64};

verus! {

/// Errors that can occur when reading a response of the Stable Diffusion
/// web UI API.
#[derive(Debug, PartialEq)]
pub enum ApiError {
    /// An image of the response is not valid base64.
    DecodeError(base64::DecodeError),
}

/// A struct that represents the response from the Stable Diffusion WebUI API endpoint.
#[derive(Debug, PartialEq)]
pub struct ImgResponse<T> {
    /// A vector of strings containing base64-encoded images.
    pub images: Vec<String>,
    /// The parameters that were provided for the generation request.
    pub parameters: T,
    /// A string containing JSON representing information about the request.
    pub info: String,
}

/// Whether the first `n` texts are all valid base64.
pub open spec fn all_decode(texts: Seq<String>, n: int) -> bool {
    forall|i: int| 0 <= i < n ==> (#[trigger] base64_decoding(texts[i]@)) is Some
}

impl<T> ImgResponse<T> {
    /// Decodes and returns the images of the response, in order; an error
    /// when one of them is not valid base64.
    pub fn images(&self) -> (r: Result<Vec<Vec<u8>>, ApiError>)
        ensures
            r is Ok <==> all_decode(self.images@, self.images@.len() as int),
            r matches Ok(v) ==> v@.len() == self.images@.len() && forall|i: int|
                0 <= i < v@.len() ==> base64_decoding(self.images@[i]@) == Some(#[trigger] v@[i]@),
    {
        let mut out: Vec<Vec<u8>> = Vec::new();
        let mut i: usize = 0;
        while i < self.images.len()
            invariant
                i <= self.images.len(),
                out@.len() == i,
                all_decode(self.images@, i as int),
                forall|j: int| 0 <= j < i ==> base64_decoding(self.images@[j]@) == Some(#[trigger] out@[j]@),
            decreases self.images.len() - i,
        {
            match decode_base64(self.images[i].as_str()) {
                Ok(bytes) => {
                    out.push(bytes);
                },
                Err(e) => {
                    return Err(ApiError::DecodeError(e));
                },
            }
            i += 1;
        }
        Ok(out)
    }
}

/// Extra parameters describing image generation.
#[derive(Debug, PartialEq)]
pub struct ExtraGenParams {
    /// Names and hashes of LORA models used for image generation.
    pub lora_hashes: Option<String>,
    /// Names and hashes of Textual Inversion models used for image generation.
    pub ti_hashes: Option<String>,
}

/// Information about the generated images.
#[derive(Debug, PartialEq)]
pub struct ImgInfo {
    /// The prompt used when generating the image.
    pub prompt: Option<String>,
    /// All the prompts used for image generation.
    pub all_prompts: Option<Vec<String>>,
    /// The negative prompt used when generating the image.
    pub negative_prompt: Option<String>,
    /// All negative prompts used when generating the image.
    pub all_negative_prompts: Option<Vec<String>>,
    /// The random seed used for image generation.
    pub seed: Option<i64>,
    /// All the random seeds used for image generation.
    pub all_seeds: Option<Vec<i64>>,
    /// The subseed used when generating the image.
    pub subseed: Option<i64>,
    /// All the subseeds used for image generation.
    pub all_subseeds: Option<Vec<i64>>,
    /// The strength of the subseed used when generating the image.
    pub subseed_strength: Option<u32>,
    /// The width of the generated image.
    pub width: Option<i32>,
    /// The height of the generated image.
    pub height: Option<i32>,
    /// The name of the sampler used for image generation.
    pub sampler_name: Option<String>,
    /// The cfg scale factor used when generating the image.
    pub cfg_scale: Option<FloatBits>,
    /// The number of steps taken when generating the image.
    pub steps: Option<u32>,
    /// The number of images generated in one batch.
    pub batch_size: Option<u32>,
    /// Whether or not face restoration was used.
    pub restore_faces: Option<bool>,
    /// The face restoration model used, as JSON text.
    pub face_restoration_model: Option<String>,
    /// The name of the sd model used when generating the image.
    pub sd_model_name: Option<String>,
    /// The hash of the sd model used for image generation.
    pub sd_model_hash: Option<String>,
    /// The name of the VAE used when generating the image.
    pub sd_vae_name: Option<String>,
    /// The hash of the VAE used for image generation.
    pub sd_vae_hash: Option<String>,
    /// The width used when resizing the image seed.
    pub seed_resize_from_w: Option<i32>,
    /// The height used when resizing the image seed.
    pub seed_resize_from_h: Option<i32>,
    /// The strength of the denoising applied during image generation.
    pub denoising_strength: Option<FloatBits>,
    /// Extra parameters passed for image generation.
    pub extra_generation_params: Option<ExtraGenParams>,
    /// The index of the first image.
    pub index_of_first_image: Option<u32>,
    /// Information texts about the generated images.
    pub infotexts: Option<Vec<String>>,
    /// The styles used for image generation.
    pub styles: Option<Vec<String>>,
    /// The timestamp of when the job was started.
    pub job_timestamp: Option<String>,
    /// The number of clip layers skipped during image generation.
    pub clip_skip: Option<u32>,
    /// Whether or not inpainting conditioning was used for image generation.
    pub is_using_inpainting_conditioning: Option<bool>,
}

} // verus!
