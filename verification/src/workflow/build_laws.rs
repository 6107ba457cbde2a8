//! What building a prompt with one value to write produces.

use vstd::prelude::*;

use crate::workflow::access::{set_field_from, set_field_on, AccessError, Field, SlotValue};
use crate::workflow::builder::{build_output, build_step, built, BuildError, PromptBuilder};
use crate::workflow::prompt::WorkflowView;

verus! {

/// The outcome of a build whose one write gave `r`: the workflow written,
/// or the write's error.
pub open spec fn build_result(r: (WorkflowView, Result<(), AccessError>)) -> Result<WorkflowView, BuildError> {
    match r.1 {
        Ok(_) => Ok(r.0),
        Err(e) => Err(BuildError::Access(e)),
    }
}

/// Building with only a prompt text to write writes it into the `Prompt` field:
/// on the node the override names, else on the node found from the output
/// node; a build without an output node fails.
pub proof fn law_build_only_prompt(b: PromptBuilder, out: Seq<char>)
    requires
        b.prompt is Some,
        b.negative_prompt is None,
        b.model is None,
        b.width is None,
        b.height is None,
        b.seed is None,
    ensures
        build_output(b) is None ==> built(b) == Err::<WorkflowView, BuildError>(BuildError::NoOutputNode),
        build_output(b) == Some(out) ==> built(b) == build_result(match b.prompt->0.node {
            Some(n) => set_field_on(b.base_prompt@, Field::Prompt, n@, SlotValue::Text(b.prompt->0.value)),
            None => set_field_from(b.base_prompt@, Field::Prompt, out, SlotValue::Text(b.prompt->0.value)),
        }),
{
    reveal(build_step);
}

/// Building with only a negative prompt text to write writes it into the `NegativePrompt` field:
/// on the node the override names, else on the node found from the output
/// node; a build without an output node fails.
pub proof fn law_build_only_negative_prompt(b: PromptBuilder, out: Seq<char>)
    requires
        b.negative_prompt is Some,
        b.prompt is None,
        b.model is None,
        b.width is None,
        b.height is None,
        b.seed is None,
    ensures
        build_output(b) is None ==> built(b) == Err::<WorkflowView, BuildError>(BuildError::NoOutputNode),
        build_output(b) == Some(out) ==> built(b) == build_result(match b.negative_prompt->0.node {
            Some(n) => set_field_on(b.base_prompt@, Field::NegativePrompt, n@, SlotValue::Text(b.negative_prompt->0.value)),
            None => set_field_from(b.base_prompt@, Field::NegativePrompt, out, SlotValue::Text(b.negative_prompt->0.value)),
        }),
{
    reveal(build_step);
}

/// Building with only a model to write writes it into the `Model` field:
/// on the node the override names, else on the node found from the output
/// node; a build without an output node fails.
pub proof fn law_build_only_model(b: PromptBuilder, out: Seq<char>)
    requires
        b.model is Some,
        b.prompt is None,
        b.negative_prompt is None,
        b.width is None,
        b.height is None,
        b.seed is None,
    ensures
        build_output(b) is None ==> built(b) == Err::<WorkflowView, BuildError>(BuildError::NoOutputNode),
        build_output(b) == Some(out) ==> built(b) == build_result(match b.model->0.node {
            Some(n) => set_field_on(b.base_prompt@, Field::Model, n@, SlotValue::Text(b.model->0.value)),
            None => set_field_from(b.base_prompt@, Field::Model, out, SlotValue::Text(b.model->0.value)),
        }),
{
    reveal(build_step);
}

/// Building with only a width to write writes it into the `Width` field:
/// on the node the override names, else on the node found from the output
/// node; a build without an output node fails.
pub proof fn law_build_only_width(b: PromptBuilder, out: Seq<char>)
    requires
        b.width is Some,
        b.prompt is None,
        b.negative_prompt is None,
        b.model is None,
        b.height is None,
        b.seed is None,
    ensures
        build_output(b) is None ==> built(b) == Err::<WorkflowView, BuildError>(BuildError::NoOutputNode),
        build_output(b) == Some(out) ==> built(b) == build_result(match b.width->0.node {
            Some(n) => set_field_on(b.base_prompt@, Field::Width, n@, SlotValue::Count(b.width->0.value)),
            None => set_field_from(b.base_prompt@, Field::Width, out, SlotValue::Count(b.width->0.value)),
        }),
{
    reveal(build_step);
}

/// Building with only a height to write writes it into the `Height` field:
/// on the node the override names, else on the node found from the output
/// node; a build without an output node fails.
pub proof fn law_build_only_height(b: PromptBuilder, out: Seq<char>)
    requires
        b.height is Some,
        b.prompt is None,
        b.negative_prompt is None,
        b.model is None,
        b.width is None,
        b.seed is None,
    ensures
        build_output(b) is None ==> built(b) == Err::<WorkflowView, BuildError>(BuildError::NoOutputNode),
        build_output(b) == Some(out) ==> built(b) == build_result(match b.height->0.node {
            Some(n) => set_field_on(b.base_prompt@, Field::Height, n@, SlotValue::Count(b.height->0.value)),
            None => set_field_from(b.base_prompt@, Field::Height, out, SlotValue::Count(b.height->0.value)),
        }),
{
    reveal(build_step);
}

/// Building with only a seed to write writes it into the `Seed` field:
/// on the node the override names, else on the node found from the output
/// node; a build without an output node fails.
pub proof fn law_build_only_seed(b: PromptBuilder, out: Seq<char>)
    requires
        b.seed is Some,
        b.prompt is None,
        b.negative_prompt is None,
        b.model is None,
        b.width is None,
        b.height is None,
    ensures
        build_output(b) is None ==> built(b) == Err::<WorkflowView, BuildError>(BuildError::NoOutputNode),
        build_output(b) == Some(out) ==> built(b) == build_result(match b.seed->0.node {
            Some(n) => set_field_on(b.base_prompt@, Field::Seed, n@, SlotValue::Seed(b.seed->0.value)),
            None => set_field_from(b.base_prompt@, Field::Seed, out, SlotValue::Seed(b.seed->0.value)),
        }),
{
    reveal(build_step);
}

} // verus!
