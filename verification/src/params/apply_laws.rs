//! What applying generation parameters writes into a workflow.

use vstd::prelude::*;

use crate::float_bits::FloatBits;
use crate::params::gen_params::{applied, ComfyParams};
use crate::workflow::access::{set_field, Field, SlotValue};
use crate::workflow::prompt::WorkflowView;

verus! {

/// Applying parameters that give only a seed writes it into the
/// workflow's `Seed` field and changes nothing else.
pub proof fn law_apply_only_seed(p: ComfyParams, w: WorkflowView, v: i64)
    requires
        p.seed == Some(v),
        p.steps is None,
        p.cfg is None,
        p.width is None,
        p.height is None,
        p.prompt_text is None,
        p.negative_prompt_text is None,
        p.denoising is None,
        p.sampler is None,
        p.batch_size is None,
    ensures
        applied(p, w) == set_field(w, Field::Seed, SlotValue::Seed(v)).0,
{
}

/// Applying parameters that give only a number of steps writes it into the
/// workflow's `Steps` field and changes nothing else.
pub proof fn law_apply_only_steps(p: ComfyParams, w: WorkflowView, v: u32)
    requires
        p.steps == Some(v),
        p.seed is None,
        p.cfg is None,
        p.width is None,
        p.height is None,
        p.prompt_text is None,
        p.negative_prompt_text is None,
        p.denoising is None,
        p.sampler is None,
        p.batch_size is None,
    ensures
        applied(p, w) == set_field(w, Field::Steps, SlotValue::Count(v)).0,
{
}

/// Applying parameters that give only a CFG scale writes it into the
/// workflow's `Cfg` field and changes nothing else.
pub proof fn law_apply_only_cfg(p: ComfyParams, w: WorkflowView, v: FloatBits)
    requires
        p.cfg == Some(v),
        p.seed is None,
        p.steps is None,
        p.width is None,
        p.height is None,
        p.prompt_text is None,
        p.negative_prompt_text is None,
        p.denoising is None,
        p.sampler is None,
        p.batch_size is None,
    ensures
        applied(p, w) == set_field(w, Field::Cfg, SlotValue::Real(v)).0,
{
}

/// Applying parameters that give only a width writes it into the
/// workflow's `Width` field and changes nothing else.
pub proof fn law_apply_only_width(p: ComfyParams, w: WorkflowView, v: u32)
    requires
        p.width == Some(v),
        p.seed is None,
        p.steps is None,
        p.cfg is None,
        p.height is None,
        p.prompt_text is None,
        p.negative_prompt_text is None,
        p.denoising is None,
        p.sampler is None,
        p.batch_size is None,
    ensures
        applied(p, w) == set_field(w, Field::Width, SlotValue::Count(v)).0,
{
}

/// Applying parameters that give only a height writes it into the
/// workflow's `Height` field and changes nothing else.
pub proof fn law_apply_only_height(p: ComfyParams, w: WorkflowView, v: u32)
    requires
        p.height == Some(v),
        p.seed is None,
        p.steps is None,
        p.cfg is None,
        p.width is None,
        p.prompt_text is None,
        p.negative_prompt_text is None,
        p.denoising is None,
        p.sampler is None,
        p.batch_size is None,
    ensures
        applied(p, w) == set_field(w, Field::Height, SlotValue::Count(v)).0,
{
}

/// Applying parameters that give only a prompt writes it into the
/// workflow's `Prompt` field and changes nothing else.
pub proof fn law_apply_only_prompt_text(p: ComfyParams, w: WorkflowView, v: String)
    requires
        p.prompt_text == Some(v),
        p.seed is None,
        p.steps is None,
        p.cfg is None,
        p.width is None,
        p.height is None,
        p.negative_prompt_text is None,
        p.denoising is None,
        p.sampler is None,
        p.batch_size is None,
    ensures
        applied(p, w) == set_field(w, Field::Prompt, SlotValue::Text(v)).0,
{
}

/// Applying parameters that give only a negative prompt writes it into the
/// workflow's `NegativePrompt` field and changes nothing else.
pub proof fn law_apply_only_negative_prompt_text(p: ComfyParams, w: WorkflowView, v: String)
    requires
        p.negative_prompt_text == Some(v),
        p.seed is None,
        p.steps is None,
        p.cfg is None,
        p.width is None,
        p.height is None,
        p.prompt_text is None,
        p.denoising is None,
        p.sampler is None,
        p.batch_size is None,
    ensures
        applied(p, w) == set_field(w, Field::NegativePrompt, SlotValue::Text(v)).0,
{
}

/// Applying parameters that give only a denoising strength writes it into the
/// workflow's `Denoise` field and changes nothing else.
pub proof fn law_apply_only_denoising(p: ComfyParams, w: WorkflowView, v: FloatBits)
    requires
        p.denoising == Some(v),
        p.seed is None,
        p.steps is None,
        p.cfg is None,
        p.width is None,
        p.height is None,
        p.prompt_text is None,
        p.negative_prompt_text is None,
        p.sampler is None,
        p.batch_size is None,
    ensures
        applied(p, w) == set_field(w, Field::Denoise, SlotValue::Real(v)).0,
{
}

/// Applying parameters that give only a sampler writes it into the
/// workflow's `Sampler` field and changes nothing else.
pub proof fn law_apply_only_sampler(p: ComfyParams, w: WorkflowView, v: String)
    requires
        p.sampler == Some(v),
        p.seed is None,
        p.steps is None,
        p.cfg is None,
        p.width is None,
        p.height is None,
        p.prompt_text is None,
        p.negative_prompt_text is None,
        p.denoising is None,
        p.batch_size is None,
    ensures
        applied(p, w) == set_field(w, Field::Sampler, SlotValue::Text(v)).0,
{
}

/// Applying parameters that give only a batch size writes it into the
/// workflow's `BatchSize` field and changes nothing else.
pub proof fn law_apply_only_batch_size(p: ComfyParams, w: WorkflowView, v: u32)
    requires
        p.batch_size == Some(v),
        p.seed is None,
        p.steps is None,
        p.cfg is None,
        p.width is None,
        p.height is None,
        p.prompt_text is None,
        p.negative_prompt_text is None,
        p.denoising is None,
        p.sampler is None,
    ensures
        applied(p, w) == set_field(w, Field::BatchSize, SlotValue::Count(v)).0,
{
}

} // verus!
