//! Which node input each generation parameter of a workflow is.

use vstd::prelude::*;

use crate::float_bits::FloatBits;
use crate::workflow::access::{get_field, set_field, AccessError, Field, SlotValue};
use crate::workflow::graph::{guessed_index, lemma_guessed_index};
use crate::workflow::node::{
    CLIPTextEncode, CheckpointLoaderSimple, EmptyLatentImage, Input, KSampler, KSamplerSelect,
    LoadImage, Node, NodeKind, NodeView, SDTurboScheduler, SamplerCustom,
};
use crate::workflow::prompt::WorkflowView;

verus! {

/// The model field is the checkpoint name of the checkpoint loader the workflow uses
/// (the node `guessed_index` picks): reading it gives that input's value,
/// writing it sets that input and changes nothing else; an input linked to
/// another node is neither read nor written, and without such a node both
/// fail.
pub proof fn law_model_field_input(w: WorkflowView, v: String)
    ensures
        guessed_index(w, NodeKind::CheckpointLoaderSimple) < 0 ==> get_field(w, Field::Model) == Err::<SlotValue, AccessError>(
            AccessError::NodeNotFound,
        ) && set_field(w, Field::Model, SlotValue::Text(v)) == (w, Err::<(), AccessError>(AccessError::NodeNotFound)),
        guessed_index(w, NodeKind::CheckpointLoaderSimple) >= 0 ==> {
            let i = guessed_index(w, NodeKind::CheckpointLoaderSimple);
            (w[i].1 matches NodeView::Known(Node::CheckpointLoaderSimple(x)) && match x.ckpt_name {
                Input::Value(cur) => get_field(w, Field::Model) == Ok::<SlotValue, AccessError>(SlotValue::Text(cur))
                    && set_field(w, Field::Model, SlotValue::Text(v)) == (
                        w.update(i, (w[i].0, NodeView::Known(Node::CheckpointLoaderSimple(CheckpointLoaderSimple { ckpt_name: Input::Value(v), ..x })))),
                        Ok::<(), AccessError>(()),
                    ),
                Input::NodeConnection(_) => get_field(w, Field::Model) == Err::<SlotValue, AccessError>(AccessError::NotAValue)
                    && set_field(w, Field::Model, SlotValue::Text(v)) == (w, Err::<(), AccessError>(AccessError::NotAValue)),
            })
        },
{
    lemma_guessed_index(w, NodeKind::CheckpointLoaderSimple);
}

/// The width field is the width of the empty latent image the workflow uses
/// (the node `guessed_index` picks): reading it gives that input's value,
/// writing it sets that input and changes nothing else; an input linked to
/// another node is neither read nor written, and without such a node both
/// fail.
pub proof fn law_width_field_input(w: WorkflowView, v: u32)
    ensures
        guessed_index(w, NodeKind::EmptyLatentImage) < 0 ==> get_field(w, Field::Width) == Err::<SlotValue, AccessError>(
            AccessError::NodeNotFound,
        ) && set_field(w, Field::Width, SlotValue::Count(v)) == (w, Err::<(), AccessError>(AccessError::NodeNotFound)),
        guessed_index(w, NodeKind::EmptyLatentImage) >= 0 ==> {
            let i = guessed_index(w, NodeKind::EmptyLatentImage);
            (w[i].1 matches NodeView::Known(Node::EmptyLatentImage(x)) && match x.width {
                Input::Value(cur) => get_field(w, Field::Width) == Ok::<SlotValue, AccessError>(SlotValue::Count(cur))
                    && set_field(w, Field::Width, SlotValue::Count(v)) == (
                        w.update(i, (w[i].0, NodeView::Known(Node::EmptyLatentImage(EmptyLatentImage { width: Input::Value(v), ..x })))),
                        Ok::<(), AccessError>(()),
                    ),
                Input::NodeConnection(_) => get_field(w, Field::Width) == Err::<SlotValue, AccessError>(AccessError::NotAValue)
                    && set_field(w, Field::Width, SlotValue::Count(v)) == (w, Err::<(), AccessError>(AccessError::NotAValue)),
            })
        },
{
    lemma_guessed_index(w, NodeKind::EmptyLatentImage);
}

/// The height field is the height of the empty latent image the workflow uses
/// (the node `guessed_index` picks): reading it gives that input's value,
/// writing it sets that input and changes nothing else; an input linked to
/// another node is neither read nor written, and without such a node both
/// fail.
pub proof fn law_height_field_input(w: WorkflowView, v: u32)
    ensures
        guessed_index(w, NodeKind::EmptyLatentImage) < 0 ==> get_field(w, Field::Height) == Err::<SlotValue, AccessError>(
            AccessError::NodeNotFound,
        ) && set_field(w, Field::Height, SlotValue::Count(v)) == (w, Err::<(), AccessError>(AccessError::NodeNotFound)),
        guessed_index(w, NodeKind::EmptyLatentImage) >= 0 ==> {
            let i = guessed_index(w, NodeKind::EmptyLatentImage);
            (w[i].1 matches NodeView::Known(Node::EmptyLatentImage(x)) && match x.height {
                Input::Value(cur) => get_field(w, Field::Height) == Ok::<SlotValue, AccessError>(SlotValue::Count(cur))
                    && set_field(w, Field::Height, SlotValue::Count(v)) == (
                        w.update(i, (w[i].0, NodeView::Known(Node::EmptyLatentImage(EmptyLatentImage { height: Input::Value(v), ..x })))),
                        Ok::<(), AccessError>(()),
                    ),
                Input::NodeConnection(_) => get_field(w, Field::Height) == Err::<SlotValue, AccessError>(AccessError::NotAValue)
                    && set_field(w, Field::Height, SlotValue::Count(v)) == (w, Err::<(), AccessError>(AccessError::NotAValue)),
            })
        },
{
    lemma_guessed_index(w, NodeKind::EmptyLatentImage);
}

/// The batch size field is the batch size of the empty latent image the workflow uses
/// (the node `guessed_index` picks): reading it gives that input's value,
/// writing it sets that input and changes nothing else; an input linked to
/// another node is neither read nor written, and without such a node both
/// fail.
pub proof fn law_batch_size_field_input(w: WorkflowView, v: u32)
    ensures
        guessed_index(w, NodeKind::EmptyLatentImage) < 0 ==> get_field(w, Field::BatchSize) == Err::<SlotValue, AccessError>(
            AccessError::NodeNotFound,
        ) && set_field(w, Field::BatchSize, SlotValue::Count(v)) == (w, Err::<(), AccessError>(AccessError::NodeNotFound)),
        guessed_index(w, NodeKind::EmptyLatentImage) >= 0 ==> {
            let i = guessed_index(w, NodeKind::EmptyLatentImage);
            (w[i].1 matches NodeView::Known(Node::EmptyLatentImage(x)) && match x.batch_size {
                Input::Value(cur) => get_field(w, Field::BatchSize) == Ok::<SlotValue, AccessError>(SlotValue::Count(cur))
                    && set_field(w, Field::BatchSize, SlotValue::Count(v)) == (
                        w.update(i, (w[i].0, NodeView::Known(Node::EmptyLatentImage(EmptyLatentImage { batch_size: Input::Value(v), ..x })))),
                        Ok::<(), AccessError>(()),
                    ),
                Input::NodeConnection(_) => get_field(w, Field::BatchSize) == Err::<SlotValue, AccessError>(AccessError::NotAValue)
                    && set_field(w, Field::BatchSize, SlotValue::Count(v)) == (w, Err::<(), AccessError>(AccessError::NotAValue)),
            })
        },
{
    lemma_guessed_index(w, NodeKind::EmptyLatentImage);
}

/// The denoise field is the denoising strength of the sampler the workflow uses
/// (the node `guessed_index` picks): reading it gives that input's value,
/// writing it sets that input and changes nothing else; an input linked to
/// another node is neither read nor written, and without such a node both
/// fail.
pub proof fn law_denoise_field_input(w: WorkflowView, v: FloatBits)
    ensures
        guessed_index(w, NodeKind::KSampler) < 0 ==> get_field(w, Field::Denoise) == Err::<SlotValue, AccessError>(
            AccessError::NodeNotFound,
        ) && set_field(w, Field::Denoise, SlotValue::Real(v)) == (w, Err::<(), AccessError>(AccessError::NodeNotFound)),
        guessed_index(w, NodeKind::KSampler) >= 0 ==> {
            let i = guessed_index(w, NodeKind::KSampler);
            (w[i].1 matches NodeView::Known(Node::KSampler(x)) && match x.denoise {
                Input::Value(cur) => get_field(w, Field::Denoise) == Ok::<SlotValue, AccessError>(SlotValue::Real(cur))
                    && set_field(w, Field::Denoise, SlotValue::Real(v)) == (
                        w.update(i, (w[i].0, NodeView::Known(Node::KSampler(KSampler { denoise: Input::Value(v), ..x })))),
                        Ok::<(), AccessError>(()),
                    ),
                Input::NodeConnection(_) => get_field(w, Field::Denoise) == Err::<SlotValue, AccessError>(AccessError::NotAValue)
                    && set_field(w, Field::Denoise, SlotValue::Real(v)) == (w, Err::<(), AccessError>(AccessError::NotAValue)),
            })
        },
{
    lemma_guessed_index(w, NodeKind::KSampler);
}

/// The image field is the image name of the image loader the workflow uses
/// (the node `guessed_index` picks): reading it gives that input's value,
/// writing it sets that input and changes nothing else; an input linked to
/// another node is neither read nor written, and without such a node both
/// fail.
pub proof fn law_image_field_input(w: WorkflowView, v: String)
    ensures
        guessed_index(w, NodeKind::LoadImage) < 0 ==> get_field(w, Field::Image) == Err::<SlotValue, AccessError>(
            AccessError::NodeNotFound,
        ) && set_field(w, Field::Image, SlotValue::Text(v)) == (w, Err::<(), AccessError>(AccessError::NodeNotFound)),
        guessed_index(w, NodeKind::LoadImage) >= 0 ==> {
            let i = guessed_index(w, NodeKind::LoadImage);
            (w[i].1 matches NodeView::Known(Node::LoadImage(x)) && match x.image {
                Input::Value(cur) => get_field(w, Field::Image) == Ok::<SlotValue, AccessError>(SlotValue::Text(cur))
                    && set_field(w, Field::Image, SlotValue::Text(v)) == (
                        w.update(i, (w[i].0, NodeView::Known(Node::LoadImage(LoadImage { image: Input::Value(v), ..x })))),
                        Ok::<(), AccessError>(()),
                    ),
                Input::NodeConnection(_) => get_field(w, Field::Image) == Err::<SlotValue, AccessError>(AccessError::NotAValue)
                    && set_field(w, Field::Image, SlotValue::Text(v)) == (w, Err::<(), AccessError>(AccessError::NotAValue)),
            })
        },
{
    lemma_guessed_index(w, NodeKind::LoadImage);
}

/// The prompt field is the text of the text encoder the workflow uses
/// (the node `guessed_index` picks): reading it gives that input's value,
/// writing it sets that input and changes nothing else; an input linked to
/// another node is neither read nor written, and without such a node both
/// fail.
pub proof fn law_prompt_field_input(w: WorkflowView, v: String)
    ensures
        guessed_index(w, NodeKind::CLIPTextEncode) < 0 ==> get_field(w, Field::Prompt) == Err::<SlotValue, AccessError>(
            AccessError::NodeNotFound,
        ) && set_field(w, Field::Prompt, SlotValue::Text(v)) == (w, Err::<(), AccessError>(AccessError::NodeNotFound)),
        guessed_index(w, NodeKind::CLIPTextEncode) >= 0 ==> {
            let i = guessed_index(w, NodeKind::CLIPTextEncode);
            (w[i].1 matches NodeView::Known(Node::CLIPTextEncode(x)) && match x.text {
                Input::Value(cur) => get_field(w, Field::Prompt) == Ok::<SlotValue, AccessError>(SlotValue::Text(cur))
                    && set_field(w, Field::Prompt, SlotValue::Text(v)) == (
                        w.update(i, (w[i].0, NodeView::Known(Node::CLIPTextEncode(CLIPTextEncode { text: Input::Value(v), ..x })))),
                        Ok::<(), AccessError>(()),
                    ),
                Input::NodeConnection(_) => get_field(w, Field::Prompt) == Err::<SlotValue, AccessError>(AccessError::NotAValue)
                    && set_field(w, Field::Prompt, SlotValue::Text(v)) == (w, Err::<(), AccessError>(AccessError::NotAValue)),
            })
        },
{
    lemma_guessed_index(w, NodeKind::CLIPTextEncode);
}

/// The negative prompt field is the text of the text encoder the workflow uses
/// (the node `guessed_index` picks): reading it gives that input's value,
/// writing it sets that input and changes nothing else; an input linked to
/// another node is neither read nor written, and without such a node both
/// fail.
pub proof fn law_negative_prompt_field_input(w: WorkflowView, v: String)
    ensures
        guessed_index(w, NodeKind::CLIPTextEncode) < 0 ==> get_field(w, Field::NegativePrompt) == Err::<SlotValue, AccessError>(
            AccessError::NodeNotFound,
        ) && set_field(w, Field::NegativePrompt, SlotValue::Text(v)) == (w, Err::<(), AccessError>(AccessError::NodeNotFound)),
        guessed_index(w, NodeKind::CLIPTextEncode) >= 0 ==> {
            let i = guessed_index(w, NodeKind::CLIPTextEncode);
            (w[i].1 matches NodeView::Known(Node::CLIPTextEncode(x)) && match x.text {
                Input::Value(cur) => get_field(w, Field::NegativePrompt) == Ok::<SlotValue, AccessError>(SlotValue::Text(cur))
                    && set_field(w, Field::NegativePrompt, SlotValue::Text(v)) == (
                        w.update(i, (w[i].0, NodeView::Known(Node::CLIPTextEncode(CLIPTextEncode { text: Input::Value(v), ..x })))),
                        Ok::<(), AccessError>(()),
                    ),
                Input::NodeConnection(_) => get_field(w, Field::NegativePrompt) == Err::<SlotValue, AccessError>(AccessError::NotAValue)
                    && set_field(w, Field::NegativePrompt, SlotValue::Text(v)) == (w, Err::<(), AccessError>(AccessError::NotAValue)),
            })
        },
{
    lemma_guessed_index(w, NodeKind::CLIPTextEncode);
}

/// The seed field is the seed of the sampler, or else the noise seed of the custom sampler
/// (each the node `guessed_index` picks): the first is read and written when
/// it holds a value; otherwise the second is, as for a field of one input
/// (see `law_height_field_input`).
pub proof fn law_seed_field_input(w: WorkflowView, v: i64)
    ensures
        ({
            let k = guessed_index(w, NodeKind::KSampler);
            k >= 0 && (w[k].1 matches NodeView::Known(Node::KSampler(x)) && x.seed is Value)
        }) ==> {
            let k = guessed_index(w, NodeKind::KSampler);
            (w[k].1 matches NodeView::Known(Node::KSampler(x)) && match x.seed {
                Input::Value(cur) => get_field(w, Field::Seed) == Ok::<SlotValue, AccessError>(SlotValue::Seed(cur))
                    && set_field(w, Field::Seed, SlotValue::Seed(v)) == (
                        w.update(k, (w[k].0, NodeView::Known(Node::KSampler(KSampler { seed: Input::Value(v), ..x })))),
                        Ok::<(), AccessError>(()),
                    ),
                Input::NodeConnection(_) => get_field(w, Field::Seed) == Err::<SlotValue, AccessError>(AccessError::NotAValue)
                    && set_field(w, Field::Seed, SlotValue::Seed(v)) == (w, Err::<(), AccessError>(AccessError::NotAValue)),
            })
        },
        !({
            let k = guessed_index(w, NodeKind::KSampler);
            k >= 0 && (w[k].1 matches NodeView::Known(Node::KSampler(x)) && x.seed is Value)
        }) ==> {
            let c = guessed_index(w, NodeKind::SamplerCustom);
            &&& c < 0 ==> get_field(w, Field::Seed) == Err::<SlotValue, AccessError>(AccessError::NodeNotFound)
                && set_field(w, Field::Seed, SlotValue::Seed(v)) == (w, Err::<(), AccessError>(AccessError::NodeNotFound))
            &&& c >= 0 ==> (w[c].1 matches NodeView::Known(Node::SamplerCustom(y)) && match y.noise_seed {
                    Input::Value(cur) => get_field(w, Field::Seed) == Ok::<SlotValue, AccessError>(SlotValue::Seed(cur))
                        && set_field(w, Field::Seed, SlotValue::Seed(v)) == (
                            w.update(c, (w[c].0, NodeView::Known(Node::SamplerCustom(SamplerCustom { noise_seed: Input::Value(v), ..y })))),
                            Ok::<(), AccessError>(()),
                        ),
                    Input::NodeConnection(_) => get_field(w, Field::Seed) == Err::<SlotValue, AccessError>(AccessError::NotAValue)
                        && set_field(w, Field::Seed, SlotValue::Seed(v)) == (w, Err::<(), AccessError>(AccessError::NotAValue)),
                })
        },
{
    lemma_guessed_index(w, NodeKind::KSampler);
    lemma_guessed_index(w, NodeKind::SamplerCustom);
}

/// The steps field is the steps of the sampler, or else the steps of the turbo scheduler
/// (each the node `guessed_index` picks): the first is read and written when
/// it holds a value; otherwise the second is, as for a field of one input
/// (see `law_height_field_input`).
pub proof fn law_steps_field_input(w: WorkflowView, v: u32)
    ensures
        ({
            let k = guessed_index(w, NodeKind::KSampler);
            k >= 0 && (w[k].1 matches NodeView::Known(Node::KSampler(x)) && x.steps is Value)
        }) ==> {
            let k = guessed_index(w, NodeKind::KSampler);
            (w[k].1 matches NodeView::Known(Node::KSampler(x)) && match x.steps {
                Input::Value(cur) => get_field(w, Field::Steps) == Ok::<SlotValue, AccessError>(SlotValue::Count(cur))
                    && set_field(w, Field::Steps, SlotValue::Count(v)) == (
                        w.update(k, (w[k].0, NodeView::Known(Node::KSampler(KSampler { steps: Input::Value(v), ..x })))),
                        Ok::<(), AccessError>(()),
                    ),
                Input::NodeConnection(_) => get_field(w, Field::Steps) == Err::<SlotValue, AccessError>(AccessError::NotAValue)
                    && set_field(w, Field::Steps, SlotValue::Count(v)) == (w, Err::<(), AccessError>(AccessError::NotAValue)),
            })
        },
        !({
            let k = guessed_index(w, NodeKind::KSampler);
            k >= 0 && (w[k].1 matches NodeView::Known(Node::KSampler(x)) && x.steps is Value)
        }) ==> {
            let c = guessed_index(w, NodeKind::SDTurboScheduler);
            &&& c < 0 ==> get_field(w, Field::Steps) == Err::<SlotValue, AccessError>(AccessError::NodeNotFound)
                && set_field(w, Field::Steps, SlotValue::Count(v)) == (w, Err::<(), AccessError>(AccessError::NodeNotFound))
            &&& c >= 0 ==> (w[c].1 matches NodeView::Known(Node::SDTurboScheduler(y)) && match y.steps {
                    Input::Value(cur) => get_field(w, Field::Steps) == Ok::<SlotValue, AccessError>(SlotValue::Count(cur))
                        && set_field(w, Field::Steps, SlotValue::Count(v)) == (
                            w.update(c, (w[c].0, NodeView::Known(Node::SDTurboScheduler(SDTurboScheduler { steps: Input::Value(v), ..y })))),
                            Ok::<(), AccessError>(()),
                        ),
                    Input::NodeConnection(_) => get_field(w, Field::Steps) == Err::<SlotValue, AccessError>(AccessError::NotAValue)
                        && set_field(w, Field::Steps, SlotValue::Count(v)) == (w, Err::<(), AccessError>(AccessError::NotAValue)),
                })
        },
{
    lemma_guessed_index(w, NodeKind::KSampler);
    lemma_guessed_index(w, NodeKind::SDTurboScheduler);
}

/// The cfg field is the CFG scale of the sampler, or else that of the custom sampler
/// (each the node `guessed_index` picks): the first is read and written when
/// it holds a value; otherwise the second is, as for a field of one input
/// (see `law_height_field_input`).
pub proof fn law_cfg_field_input(w: WorkflowView, v: FloatBits)
    ensures
        ({
            let k = guessed_index(w, NodeKind::KSampler);
            k >= 0 && (w[k].1 matches NodeView::Known(Node::KSampler(x)) && x.cfg is Value)
        }) ==> {
            let k = guessed_index(w, NodeKind::KSampler);
            (w[k].1 matches NodeView::Known(Node::KSampler(x)) && match x.cfg {
                Input::Value(cur) => get_field(w, Field::Cfg) == Ok::<SlotValue, AccessError>(SlotValue::Real(cur))
                    && set_field(w, Field::Cfg, SlotValue::Real(v)) == (
                        w.update(k, (w[k].0, NodeView::Known(Node::KSampler(KSampler { cfg: Input::Value(v), ..x })))),
                        Ok::<(), AccessError>(()),
                    ),
                Input::NodeConnection(_) => get_field(w, Field::Cfg) == Err::<SlotValue, AccessError>(AccessError::NotAValue)
                    && set_field(w, Field::Cfg, SlotValue::Real(v)) == (w, Err::<(), AccessError>(AccessError::NotAValue)),
            })
        },
        !({
            let k = guessed_index(w, NodeKind::KSampler);
            k >= 0 && (w[k].1 matches NodeView::Known(Node::KSampler(x)) && x.cfg is Value)
        }) ==> {
            let c = guessed_index(w, NodeKind::SamplerCustom);
            &&& c < 0 ==> get_field(w, Field::Cfg) == Err::<SlotValue, AccessError>(AccessError::NodeNotFound)
                && set_field(w, Field::Cfg, SlotValue::Real(v)) == (w, Err::<(), AccessError>(AccessError::NodeNotFound))
            &&& c >= 0 ==> (w[c].1 matches NodeView::Known(Node::SamplerCustom(y)) && match y.cfg {
                    Input::Value(cur) => get_field(w, Field::Cfg) == Ok::<SlotValue, AccessError>(SlotValue::Real(cur))
                        && set_field(w, Field::Cfg, SlotValue::Real(v)) == (
                            w.update(c, (w[c].0, NodeView::Known(Node::SamplerCustom(SamplerCustom { cfg: Input::Value(v), ..y })))),
                            Ok::<(), AccessError>(()),
                        ),
                    Input::NodeConnection(_) => get_field(w, Field::Cfg) == Err::<SlotValue, AccessError>(AccessError::NotAValue)
                        && set_field(w, Field::Cfg, SlotValue::Real(v)) == (w, Err::<(), AccessError>(AccessError::NotAValue)),
                })
        },
{
    lemma_guessed_index(w, NodeKind::KSampler);
    lemma_guessed_index(w, NodeKind::SamplerCustom);
}

/// The sampler field is the sampler name of the sampler, or else that of the sampler selector
/// (each the node `guessed_index` picks): the first is read and written when
/// it holds a value; otherwise the second is, as for a field of one input
/// (see `law_height_field_input`).
pub proof fn law_sampler_field_input(w: WorkflowView, v: String)
    ensures
        ({
            let k = guessed_index(w, NodeKind::KSampler);
            k >= 0 && (w[k].1 matches NodeView::Known(Node::KSampler(x)) && x.sampler_name is Value)
        }) ==> {
            let k = guessed_index(w, NodeKind::KSampler);
            (w[k].1 matches NodeView::Known(Node::KSampler(x)) && match x.sampler_name {
                Input::Value(cur) => get_field(w, Field::Sampler) == Ok::<SlotValue, AccessError>(SlotValue::Text(cur))
                    && set_field(w, Field::Sampler, SlotValue::Text(v)) == (
                        w.update(k, (w[k].0, NodeView::Known(Node::KSampler(KSampler { sampler_name: Input::Value(v), ..x })))),
                        Ok::<(), AccessError>(()),
                    ),
                Input::NodeConnection(_) => get_field(w, Field::Sampler) == Err::<SlotValue, AccessError>(AccessError::NotAValue)
                    && set_field(w, Field::Sampler, SlotValue::Text(v)) == (w, Err::<(), AccessError>(AccessError::NotAValue)),
            })
        },
        !({
            let k = guessed_index(w, NodeKind::KSampler);
            k >= 0 && (w[k].1 matches NodeView::Known(Node::KSampler(x)) && x.sampler_name is Value)
        }) ==> {
            let c = guessed_index(w, NodeKind::KSamplerSelect);
            &&& c < 0 ==> get_field(w, Field::Sampler) == Err::<SlotValue, AccessError>(AccessError::NodeNotFound)
                && set_field(w, Field::Sampler, SlotValue::Text(v)) == (w, Err::<(), AccessError>(AccessError::NodeNotFound))
            &&& c >= 0 ==> (w[c].1 matches NodeView::Known(Node::KSamplerSelect(y)) && match y.sampler_name {
                    Input::Value(cur) => get_field(w, Field::Sampler) == Ok::<SlotValue, AccessError>(SlotValue::Text(cur))
                        && set_field(w, Field::Sampler, SlotValue::Text(v)) == (
                            w.update(c, (w[c].0, NodeView::Known(Node::KSamplerSelect(KSamplerSelect { sampler_name: Input::Value(v), ..y })))),
                            Ok::<(), AccessError>(()),
                        ),
                    Input::NodeConnection(_) => get_field(w, Field::Sampler) == Err::<SlotValue, AccessError>(AccessError::NotAValue)
                        && set_field(w, Field::Sampler, SlotValue::Text(v)) == (w, Err::<(), AccessError>(AccessError::NotAValue)),
                })
        },
{
    lemma_guessed_index(w, NodeKind::KSampler);
    lemma_guessed_index(w, NodeKind::KSamplerSelect);
}

} // verus!
