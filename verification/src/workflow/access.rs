use vstd::prelude::*;

use crate::float_bits::FloatBits;
use crate::workflow::graph::{
    found_node, guessed_index, lemma_guessed_index,
};
use crate::workflow::node::{
    CLIPTextEncode, CheckpointLoaderSimple, EmptyLatentImage, Input, KSampler, KSamplerSelect,
    LoadImage, Node, NodeKind, NodeOrUnknown, NodeView, SDTurboScheduler, SamplerCustom,
};
use crate::workflow::prompt::{
    contains_id, index_of, lemma_index_of, lemma_index_of_update, node, Prompt, WorkflowView,
};

verus! {

/// Why a parameter could not be read from or written to a workflow.
#[derive(Debug, Clone, Copy, PartialEq, Eq, Structural)]
pub enum AccessError {
    /// No suitable node was found.
    NodeNotFound,
    /// The node is not of the kind that holds the parameter.
    WrongNodeType,
    /// The parameter's input is connected to another node rather than set.
    NotAValue,
}

/// A parameter value held in a workflow node.
#[derive(Debug, PartialEq)]
pub enum SlotValue {
    /// A text value (prompt, model name, sampler name, image name).
    Text(String),
    /// A count (width, height, steps, batch size).
    Count(u32),
    /// A seed.
    Seed(i64),
    /// A floating-point value (cfg scale, denoise).
    Real(FloatBits),
}

impl Clone for SlotValue {
    fn clone(&self) -> (r: Self)
        ensures
            r == *self,
    {
        match self {
            SlotValue::Text(s) => SlotValue::Text(s.clone()),
            SlotValue::Count(c) => SlotValue::Count(*c),
            SlotValue::Seed(s) => SlotValue::Seed(*s),
            SlotValue::Real(f) => SlotValue::Real(*f),
        }
    }
}

/// A widget input of one kind of node that a parameter is read from and written to.
#[derive(Debug, Clone, Copy, PartialEq, Eq, Structural)]
pub enum Slot {
    /// The text of a CLIPTextEncode node.
    ClipText,
    /// The checkpoint name of a CheckpointLoaderSimple node.
    CheckpointName,
    /// The width of an EmptyLatentImage node.
    LatentWidth,
    /// The height of an EmptyLatentImage node.
    LatentHeight,
    /// The batch size of an EmptyLatentImage node.
    LatentBatchSize,
    /// The seed of a KSampler node.
    KSamplerSeed,
    /// The noise seed of a SamplerCustom node.
    SamplerCustomSeed,
    /// The number of steps of a KSampler node.
    KSamplerSteps,
    /// The number of steps of a SDTurboScheduler node.
    TurboSteps,
    /// The cfg scale of a KSampler node.
    KSamplerCfg,
    /// The cfg scale of a SamplerCustom node.
    SamplerCustomCfg,
    /// The denoise parameter of a KSampler node.
    KSamplerDenoise,
    /// The sampler name of a KSampler node.
    KSamplerSampler,
    /// The sampler name of a KSamplerSelect node.
    SelectSampler,
    /// The image name of a LoadImage node.
    LoadImageName,
}

impl Slot {
    /// The kind of node this slot belongs to.
    pub open spec fn spec_kind(self) -> NodeKind {
        match self {
            Slot::ClipText => NodeKind::CLIPTextEncode,
            Slot::CheckpointName => NodeKind::CheckpointLoaderSimple,
            Slot::LatentWidth => NodeKind::EmptyLatentImage,
            Slot::LatentHeight => NodeKind::EmptyLatentImage,
            Slot::LatentBatchSize => NodeKind::EmptyLatentImage,
            Slot::KSamplerSeed => NodeKind::KSampler,
            Slot::SamplerCustomSeed => NodeKind::SamplerCustom,
            Slot::KSamplerSteps => NodeKind::KSampler,
            Slot::TurboSteps => NodeKind::SDTurboScheduler,
            Slot::KSamplerCfg => NodeKind::KSampler,
            Slot::SamplerCustomCfg => NodeKind::SamplerCustom,
            Slot::KSamplerDenoise => NodeKind::KSampler,
            Slot::KSamplerSampler => NodeKind::KSampler,
            Slot::SelectSampler => NodeKind::KSamplerSelect,
            Slot::LoadImageName => NodeKind::LoadImage,
        }
    }

    /// The kind of node this slot belongs to.
    pub fn kind(self) -> (k: NodeKind)
        ensures
            k == self.spec_kind(),
    {
        match self {
            Slot::ClipText => NodeKind::CLIPTextEncode,
            Slot::CheckpointName => NodeKind::CheckpointLoaderSimple,
            Slot::LatentWidth => NodeKind::EmptyLatentImage,
            Slot::LatentHeight => NodeKind::EmptyLatentImage,
            Slot::LatentBatchSize => NodeKind::EmptyLatentImage,
            Slot::KSamplerSeed => NodeKind::KSampler,
            Slot::SamplerCustomSeed => NodeKind::SamplerCustom,
            Slot::KSamplerSteps => NodeKind::KSampler,
            Slot::TurboSteps => NodeKind::SDTurboScheduler,
            Slot::KSamplerCfg => NodeKind::KSampler,
            Slot::SamplerCustomCfg => NodeKind::SamplerCustom,
            Slot::KSamplerDenoise => NodeKind::KSampler,
            Slot::KSamplerSampler => NodeKind::KSampler,
            Slot::SelectSampler => NodeKind::KSamplerSelect,
            Slot::LoadImageName => NodeKind::LoadImage,
        }
    }

    /// Whether a value has the type this slot holds.
    pub open spec fn fits(self, v: SlotValue) -> bool {
        match self {
            Slot::ClipText => v is Text,
            Slot::CheckpointName => v is Text,
            Slot::LatentWidth => v is Count,
            Slot::LatentHeight => v is Count,
            Slot::LatentBatchSize => v is Count,
            Slot::KSamplerSeed => v is Seed,
            Slot::SamplerCustomSeed => v is Seed,
            Slot::KSamplerSteps => v is Count,
            Slot::TurboSteps => v is Count,
            Slot::KSamplerCfg => v is Real,
            Slot::SamplerCustomCfg => v is Real,
            Slot::KSamplerDenoise => v is Real,
            Slot::KSamplerSampler => v is Text,
            Slot::SelectSampler => v is Text,
            Slot::LoadImageName => v is Text,
        }
    }
}

/// The value held in slot `s` of node `n`: an error when the node is of
/// another kind or when the input is a connection rather than a value.
pub open spec fn read_slot(n: NodeView, s: Slot) -> Result<SlotValue, AccessError> {
    match n {
        NodeView::Known(node) => match (s, node) {
            (Slot::ClipText, Node::CLIPTextEncode(x)) => match x.text {
                Input::Value(val) => Ok(SlotValue::Text(val)),
                Input::NodeConnection(_) => Err(AccessError::NotAValue),
            },
            (Slot::CheckpointName, Node::CheckpointLoaderSimple(x)) => match x.ckpt_name {
                Input::Value(val) => Ok(SlotValue::Text(val)),
                Input::NodeConnection(_) => Err(AccessError::NotAValue),
            },
            (Slot::LatentWidth, Node::EmptyLatentImage(x)) => match x.width {
                Input::Value(val) => Ok(SlotValue::Count(val)),
                Input::NodeConnection(_) => Err(AccessError::NotAValue),
            },
            (Slot::LatentHeight, Node::EmptyLatentImage(x)) => match x.height {
                Input::Value(val) => Ok(SlotValue::Count(val)),
                Input::NodeConnection(_) => Err(AccessError::NotAValue),
            },
            (Slot::LatentBatchSize, Node::EmptyLatentImage(x)) => match x.batch_size {
                Input::Value(val) => Ok(SlotValue::Count(val)),
                Input::NodeConnection(_) => Err(AccessError::NotAValue),
            },
            (Slot::KSamplerSeed, Node::KSampler(x)) => match x.seed {
                Input::Value(val) => Ok(SlotValue::Seed(val)),
                Input::NodeConnection(_) => Err(AccessError::NotAValue),
            },
            (Slot::SamplerCustomSeed, Node::SamplerCustom(x)) => match x.noise_seed {
                Input::Value(val) => Ok(SlotValue::Seed(val)),
                Input::NodeConnection(_) => Err(AccessError::NotAValue),
            },
            (Slot::KSamplerSteps, Node::KSampler(x)) => match x.steps {
                Input::Value(val) => Ok(SlotValue::Count(val)),
                Input::NodeConnection(_) => Err(AccessError::NotAValue),
            },
            (Slot::TurboSteps, Node::SDTurboScheduler(x)) => match x.steps {
                Input::Value(val) => Ok(SlotValue::Count(val)),
                Input::NodeConnection(_) => Err(AccessError::NotAValue),
            },
            (Slot::KSamplerCfg, Node::KSampler(x)) => match x.cfg {
                Input::Value(val) => Ok(SlotValue::Real(val)),
                Input::NodeConnection(_) => Err(AccessError::NotAValue),
            },
            (Slot::SamplerCustomCfg, Node::SamplerCustom(x)) => match x.cfg {
                Input::Value(val) => Ok(SlotValue::Real(val)),
                Input::NodeConnection(_) => Err(AccessError::NotAValue),
            },
            (Slot::KSamplerDenoise, Node::KSampler(x)) => match x.denoise {
                Input::Value(val) => Ok(SlotValue::Real(val)),
                Input::NodeConnection(_) => Err(AccessError::NotAValue),
            },
            (Slot::KSamplerSampler, Node::KSampler(x)) => match x.sampler_name {
                Input::Value(val) => Ok(SlotValue::Text(val)),
                Input::NodeConnection(_) => Err(AccessError::NotAValue),
            },
            (Slot::SelectSampler, Node::KSamplerSelect(x)) => match x.sampler_name {
                Input::Value(val) => Ok(SlotValue::Text(val)),
                Input::NodeConnection(_) => Err(AccessError::NotAValue),
            },
            (Slot::LoadImageName, Node::LoadImage(x)) => match x.image {
                Input::Value(val) => Ok(SlotValue::Text(val)),
                Input::NodeConnection(_) => Err(AccessError::NotAValue),
            },
            _ => Err(AccessError::WrongNodeType),
        },
        NodeView::Generic(..) => Err(AccessError::WrongNodeType),
    }
}

/// Node `n` with the value `v` written into slot `s`, where that slot holds a value.
pub open spec fn write_slot(n: NodeView, s: Slot, v: SlotValue) -> NodeView {
    match n {
        NodeView::Known(node) => match (s, node, v) {
            (Slot::ClipText, Node::CLIPTextEncode(x), SlotValue::Text(val)) => NodeView::Known(
                Node::CLIPTextEncode(CLIPTextEncode { text: Input::Value(val), ..x }),
            ),
            (Slot::CheckpointName, Node::CheckpointLoaderSimple(x), SlotValue::Text(val)) => NodeView::Known(
                Node::CheckpointLoaderSimple(CheckpointLoaderSimple { ckpt_name: Input::Value(val), ..x }),
            ),
            (Slot::LatentWidth, Node::EmptyLatentImage(x), SlotValue::Count(val)) => NodeView::Known(
                Node::EmptyLatentImage(EmptyLatentImage { width: Input::Value(val), ..x }),
            ),
            (Slot::LatentHeight, Node::EmptyLatentImage(x), SlotValue::Count(val)) => NodeView::Known(
                Node::EmptyLatentImage(EmptyLatentImage { height: Input::Value(val), ..x }),
            ),
            (Slot::LatentBatchSize, Node::EmptyLatentImage(x), SlotValue::Count(val)) => NodeView::Known(
                Node::EmptyLatentImage(EmptyLatentImage { batch_size: Input::Value(val), ..x }),
            ),
            (Slot::KSamplerSeed, Node::KSampler(x), SlotValue::Seed(val)) => NodeView::Known(
                Node::KSampler(KSampler { seed: Input::Value(val), ..x }),
            ),
            (Slot::SamplerCustomSeed, Node::SamplerCustom(x), SlotValue::Seed(val)) => NodeView::Known(
                Node::SamplerCustom(SamplerCustom { noise_seed: Input::Value(val), ..x }),
            ),
            (Slot::KSamplerSteps, Node::KSampler(x), SlotValue::Count(val)) => NodeView::Known(
                Node::KSampler(KSampler { steps: Input::Value(val), ..x }),
            ),
            (Slot::TurboSteps, Node::SDTurboScheduler(x), SlotValue::Count(val)) => NodeView::Known(
                Node::SDTurboScheduler(SDTurboScheduler { steps: Input::Value(val), ..x }),
            ),
            (Slot::KSamplerCfg, Node::KSampler(x), SlotValue::Real(val)) => NodeView::Known(
                Node::KSampler(KSampler { cfg: Input::Value(val), ..x }),
            ),
            (Slot::SamplerCustomCfg, Node::SamplerCustom(x), SlotValue::Real(val)) => NodeView::Known(
                Node::SamplerCustom(SamplerCustom { cfg: Input::Value(val), ..x }),
            ),
            (Slot::KSamplerDenoise, Node::KSampler(x), SlotValue::Real(val)) => NodeView::Known(
                Node::KSampler(KSampler { denoise: Input::Value(val), ..x }),
            ),
            (Slot::KSamplerSampler, Node::KSampler(x), SlotValue::Text(val)) => NodeView::Known(
                Node::KSampler(KSampler { sampler_name: Input::Value(val), ..x }),
            ),
            (Slot::SelectSampler, Node::KSamplerSelect(x), SlotValue::Text(val)) => NodeView::Known(
                Node::KSamplerSelect(KSamplerSelect { sampler_name: Input::Value(val), ..x }),
            ),
            (Slot::LoadImageName, Node::LoadImage(x), SlotValue::Text(val)) => NodeView::Known(
                Node::LoadImage(LoadImage { image: Input::Value(val), ..x }),
            ),
            _ => n,
        },
        NodeView::Generic(..) => n,
    }
}

/// Reads slot `s` of node `n`.
pub fn read_node_slot(n: &NodeOrUnknown, s: Slot) -> (r: Result<SlotValue, AccessError>)
    ensures
        r == read_slot(n@, s),
{
    match n {
        NodeOrUnknown::Node(node) => match (s, node) {
            (Slot::ClipText, Node::CLIPTextEncode(x)) => match x.text.value() {
                Some(val) => Ok(SlotValue::Text(val.clone())),
                None => Err(AccessError::NotAValue),
            },
            (Slot::CheckpointName, Node::CheckpointLoaderSimple(x)) => match x.ckpt_name.value() {
                Some(val) => Ok(SlotValue::Text(val.clone())),
                None => Err(AccessError::NotAValue),
            },
            (Slot::LatentWidth, Node::EmptyLatentImage(x)) => match x.width.value() {
                Some(val) => Ok(SlotValue::Count(*val)),
                None => Err(AccessError::NotAValue),
            },
            (Slot::LatentHeight, Node::EmptyLatentImage(x)) => match x.height.value() {
                Some(val) => Ok(SlotValue::Count(*val)),
                None => Err(AccessError::NotAValue),
            },
            (Slot::LatentBatchSize, Node::EmptyLatentImage(x)) => match x.batch_size.value() {
                Some(val) => Ok(SlotValue::Count(*val)),
                None => Err(AccessError::NotAValue),
            },
            (Slot::KSamplerSeed, Node::KSampler(x)) => match x.seed.value() {
                Some(val) => Ok(SlotValue::Seed(*val)),
                None => Err(AccessError::NotAValue),
            },
            (Slot::SamplerCustomSeed, Node::SamplerCustom(x)) => match x.noise_seed.value() {
                Some(val) => Ok(SlotValue::Seed(*val)),
                None => Err(AccessError::NotAValue),
            },
            (Slot::KSamplerSteps, Node::KSampler(x)) => match x.steps.value() {
                Some(val) => Ok(SlotValue::Count(*val)),
                None => Err(AccessError::NotAValue),
            },
            (Slot::TurboSteps, Node::SDTurboScheduler(x)) => match x.steps.value() {
                Some(val) => Ok(SlotValue::Count(*val)),
                None => Err(AccessError::NotAValue),
            },
            (Slot::KSamplerCfg, Node::KSampler(x)) => match x.cfg.value() {
                Some(val) => Ok(SlotValue::Real(*val)),
                None => Err(AccessError::NotAValue),
            },
            (Slot::SamplerCustomCfg, Node::SamplerCustom(x)) => match x.cfg.value() {
                Some(val) => Ok(SlotValue::Real(*val)),
                None => Err(AccessError::NotAValue),
            },
            (Slot::KSamplerDenoise, Node::KSampler(x)) => match x.denoise.value() {
                Some(val) => Ok(SlotValue::Real(*val)),
                None => Err(AccessError::NotAValue),
            },
            (Slot::KSamplerSampler, Node::KSampler(x)) => match x.sampler_name.value() {
                Some(val) => Ok(SlotValue::Text(val.clone())),
                None => Err(AccessError::NotAValue),
            },
            (Slot::SelectSampler, Node::KSamplerSelect(x)) => match x.sampler_name.value() {
                Some(val) => Ok(SlotValue::Text(val.clone())),
                None => Err(AccessError::NotAValue),
            },
            (Slot::LoadImageName, Node::LoadImage(x)) => match x.image.value() {
                Some(val) => Ok(SlotValue::Text(val.clone())),
                None => Err(AccessError::NotAValue),
            },
            _ => Err(AccessError::WrongNodeType),
        },
        NodeOrUnknown::GenericNode(_) => Err(AccessError::WrongNodeType),
    }
}

/// Writes `v` into slot `s` of node `n`, where that slot holds a value.
pub fn write_node_slot(n: &mut NodeOrUnknown, s: Slot, v: SlotValue) -> (r: Result<(), AccessError>)
    requires
        s.fits(v),
    ensures
        r matches Ok(_) <==> read_slot(old(n)@, s) is Ok,
        r matches Err(e) ==> read_slot(old(n)@, s) == Err::<SlotValue, AccessError>(e) && final(n)@ == old(n)@,
        r is Ok ==> final(n)@ == write_slot(old(n)@, s, v),
{
    match n {
        NodeOrUnknown::Node(node) => match (s, node, v) {
            (Slot::ClipText, Node::CLIPTextEncode(x), SlotValue::Text(val)) => if x.text.set_value(val) {
                Ok(())
            } else {
                Err(AccessError::NotAValue)
            },
            (Slot::CheckpointName, Node::CheckpointLoaderSimple(x), SlotValue::Text(val)) => if x.ckpt_name.set_value(val) {
                Ok(())
            } else {
                Err(AccessError::NotAValue)
            },
            (Slot::LatentWidth, Node::EmptyLatentImage(x), SlotValue::Count(val)) => if x.width.set_value(val) {
                Ok(())
            } else {
                Err(AccessError::NotAValue)
            },
            (Slot::LatentHeight, Node::EmptyLatentImage(x), SlotValue::Count(val)) => if x.height.set_value(val) {
                Ok(())
            } else {
                Err(AccessError::NotAValue)
            },
            (Slot::LatentBatchSize, Node::EmptyLatentImage(x), SlotValue::Count(val)) => if x.batch_size.set_value(val) {
                Ok(())
            } else {
                Err(AccessError::NotAValue)
            },
            (Slot::KSamplerSeed, Node::KSampler(x), SlotValue::Seed(val)) => if x.seed.set_value(val) {
                Ok(())
            } else {
                Err(AccessError::NotAValue)
            },
            (Slot::SamplerCustomSeed, Node::SamplerCustom(x), SlotValue::Seed(val)) => if x.noise_seed.set_value(val) {
                Ok(())
            } else {
                Err(AccessError::NotAValue)
            },
            (Slot::KSamplerSteps, Node::KSampler(x), SlotValue::Count(val)) => if x.steps.set_value(val) {
                Ok(())
            } else {
                Err(AccessError::NotAValue)
            },
            (Slot::TurboSteps, Node::SDTurboScheduler(x), SlotValue::Count(val)) => if x.steps.set_value(val) {
                Ok(())
            } else {
                Err(AccessError::NotAValue)
            },
            (Slot::KSamplerCfg, Node::KSampler(x), SlotValue::Real(val)) => if x.cfg.set_value(val) {
                Ok(())
            } else {
                Err(AccessError::NotAValue)
            },
            (Slot::SamplerCustomCfg, Node::SamplerCustom(x), SlotValue::Real(val)) => if x.cfg.set_value(val) {
                Ok(())
            } else {
                Err(AccessError::NotAValue)
            },
            (Slot::KSamplerDenoise, Node::KSampler(x), SlotValue::Real(val)) => if x.denoise.set_value(val) {
                Ok(())
            } else {
                Err(AccessError::NotAValue)
            },
            (Slot::KSamplerSampler, Node::KSampler(x), SlotValue::Text(val)) => if x.sampler_name.set_value(val) {
                Ok(())
            } else {
                Err(AccessError::NotAValue)
            },
            (Slot::SelectSampler, Node::KSamplerSelect(x), SlotValue::Text(val)) => if x.sampler_name.set_value(val) {
                Ok(())
            } else {
                Err(AccessError::NotAValue)
            },
            (Slot::LoadImageName, Node::LoadImage(x), SlotValue::Text(val)) => if x.image.set_value(val) {
                Ok(())
            } else {
                Err(AccessError::NotAValue)
            },
            (_, _, _) => Err(AccessError::WrongNodeType),
        },
        NodeOrUnknown::GenericNode(_) => Err(AccessError::WrongNodeType),
    }
}

/// A generation parameter that a workflow holds.
#[derive(Debug, Clone, Copy, PartialEq, Eq, Structural)]
pub enum Field {
    /// The prompt text.
    Prompt,
    /// The negative prompt text.
    NegativePrompt,
    /// The checkpoint (model) name.
    Model,
    /// The image width.
    Width,
    /// The image height.
    Height,
    /// The seed.
    Seed,
    /// The number of steps.
    Steps,
    /// The cfg scale.
    Cfg,
    /// The denoise strength.
    Denoise,
    /// The sampler name.
    Sampler,
    /// The batch size.
    BatchSize,
    /// The name of the image to load.
    Image,
}

impl Field {
    /// The slot a field is read from first.
    pub open spec fn spec_primary(self) -> Slot {
        match self {
            Field::Prompt => Slot::ClipText,
            Field::NegativePrompt => Slot::ClipText,
            Field::Model => Slot::CheckpointName,
            Field::Width => Slot::LatentWidth,
            Field::Height => Slot::LatentHeight,
            Field::Seed => Slot::KSamplerSeed,
            Field::Steps => Slot::KSamplerSteps,
            Field::Cfg => Slot::KSamplerCfg,
            Field::Denoise => Slot::KSamplerDenoise,
            Field::Sampler => Slot::KSamplerSampler,
            Field::BatchSize => Slot::LatentBatchSize,
            Field::Image => Slot::LoadImageName,
        }
    }

    /// The slot a field falls back to when the first one cannot be used.
    pub open spec fn spec_secondary(self) -> Option<Slot> {
        match self {
            Field::Seed => Some(Slot::SamplerCustomSeed),
            Field::Steps => Some(Slot::TurboSteps),
            Field::Cfg => Some(Slot::SamplerCustomCfg),
            Field::Sampler => Some(Slot::SelectSampler),
            _ => None,
        }
    }

    /// The slot a field is read from first.
    pub fn primary(self) -> (s: Slot)
        ensures
            s == self.spec_primary(),
    {
        match self {
            Field::Prompt => Slot::ClipText,
            Field::NegativePrompt => Slot::ClipText,
            Field::Model => Slot::CheckpointName,
            Field::Width => Slot::LatentWidth,
            Field::Height => Slot::LatentHeight,
            Field::Seed => Slot::KSamplerSeed,
            Field::Steps => Slot::KSamplerSteps,
            Field::Cfg => Slot::KSamplerCfg,
            Field::Denoise => Slot::KSamplerDenoise,
            Field::Sampler => Slot::KSamplerSampler,
            Field::BatchSize => Slot::LatentBatchSize,
            Field::Image => Slot::LoadImageName,
        }
    }

    /// The slot a field falls back to when the first one cannot be used.
    pub fn secondary(self) -> (s: Option<Slot>)
        ensures
            s == self.spec_secondary(),
    {
        match self {
            Field::Seed => Some(Slot::SamplerCustomSeed),
            Field::Steps => Some(Slot::TurboSteps),
            Field::Cfg => Some(Slot::SamplerCustomCfg),
            Field::Sampler => Some(Slot::SelectSampler),
            _ => None,
        }
    }

    /// Whether a value has the type this field holds.
    pub fn value_fits(&self, v: &SlotValue) -> (r: bool)
        ensures
            r == self.fits(*v),
    {
        match (self, v) {
            (Field::Prompt, SlotValue::Text(_)) => true,
            (Field::NegativePrompt, SlotValue::Text(_)) => true,
            (Field::Model, SlotValue::Text(_)) => true,
            (Field::Sampler, SlotValue::Text(_)) => true,
            (Field::Image, SlotValue::Text(_)) => true,
            (Field::Width, SlotValue::Count(_)) => true,
            (Field::Height, SlotValue::Count(_)) => true,
            (Field::Steps, SlotValue::Count(_)) => true,
            (Field::BatchSize, SlotValue::Count(_)) => true,
            (Field::Seed, SlotValue::Seed(_)) => true,
            (Field::Cfg, SlotValue::Real(_)) => true,
            (Field::Denoise, SlotValue::Real(_)) => true,
            _ => false,
        }
    }

    /// Whether a value has the type this field holds.
    pub open spec fn fits(self, v: SlotValue) -> bool {
        &&& self.spec_primary().fits(v)
        &&& (self.spec_secondary() matches Some(s) ==> s.fits(v))
    }

    /// Whether the field's target is the node the sampler takes as its
    /// positive or negative conditioning, when a walk names the node.
    pub open spec fn is_conditioning(self) -> bool {
        self == Field::Prompt || self == Field::NegativePrompt
    }
}

/// Reads slot `s` of the node guessed for its kind (see `guessed_index`).
pub open spec fn get_slot(w: WorkflowView, s: Slot) -> Result<SlotValue, AccessError> {
    let i = guessed_index(w, s.spec_kind());
    if i < 0 {
        Err(AccessError::NodeNotFound)
    } else {
        read_slot(w[i].1, s)
    }
}

/// The value of field `f` of workflow `w`: read from the primary slot of the
/// guessed node, and, for fields with a fallback, from the fallback slot
/// when that fails.
pub open spec fn get_field(w: WorkflowView, f: Field) -> Result<SlotValue, AccessError> {
    match f.spec_secondary() {
        None => get_slot(w, f.spec_primary()),
        Some(s2) => match get_slot(w, f.spec_primary()) {
            Ok(v) => Ok(v),
            Err(_) => get_slot(w, s2),
        },
    }
}

/// The workflow after writing `v` into the slot at position `i`, and the result.
pub open spec fn write_at(w: WorkflowView, i: int, s: Slot, v: SlotValue) -> (WorkflowView, Result<(), AccessError>) {
    match read_slot(w[i].1, s) {
        Ok(_) => (w.update(i, (w[i].0, write_slot(w[i].1, s, v))), Ok(())),
        Err(e) => (w, Err(e)),
    }
}

/// Writes `v` into slot `s` of the node guessed for its kind.
pub open spec fn set_slot(w: WorkflowView, s: Slot, v: SlotValue) -> (WorkflowView, Result<(), AccessError>) {
    let i = guessed_index(w, s.spec_kind());
    if i < 0 {
        (w, Err(AccessError::NodeNotFound))
    } else {
        write_at(w, i, s, v)
    }
}

/// Sets field `f` of workflow `w` to `v`: in the primary slot of the
/// guessed node when that slot can be read, else in the fallback slot.
pub open spec fn set_field(w: WorkflowView, f: Field, v: SlotValue) -> (WorkflowView, Result<(), AccessError>) {
    match f.spec_secondary() {
        None => set_slot(w, f.spec_primary(), v),
        Some(s2) => if get_slot(w, f.spec_primary()) is Ok {
            set_slot(w, f.spec_primary(), v)
        } else {
            set_slot(w, s2, v)
        },
    }
}

/// Sets field `f` on the node at position `i`: the primary slot when the
/// node holds it as a value, else the fallback slot.
pub open spec fn set_field_at(w: WorkflowView, i: int, f: Field, v: SlotValue) -> (WorkflowView, Result<(), AccessError>) {
    match f.spec_secondary() {
        None => write_at(w, i, f.spec_primary(), v),
        Some(s2) => if read_slot(w[i].1, f.spec_primary()) is Ok {
            write_at(w, i, f.spec_primary(), v)
        } else {
            write_at(w, i, s2, v)
        },
    }
}

/// The conditioning input (positive for the prompt, negative for the
/// negative prompt) of the sampler node with id `k`.
pub open spec fn conditioning_of(w: WorkflowView, k: Seq<char>, f: Field) -> Option<Seq<char>> {
    match node(w, k) {
        Some(NodeView::Known(Node::KSampler(x))) => if f == Field::Prompt {
            Some(x.positive.node_id@)
        } else {
            Some(x.negative.node_id@)
        },
        Some(NodeView::Known(Node::SamplerCustom(x))) => if f == Field::Prompt {
            Some(x.positive.node_id@)
        } else {
            Some(x.negative.node_id@)
        },
        _ => None,
    }
}

/// The id of the node that field `f` is written to when writing from output
/// node `out`: for the prompt texts, the conditioning input of the sampler
/// the walk from `out` finds (a KSampler, else a SamplerCustom); for other
/// fields, the node of the primary slot's kind the walk finds, or else of
/// the fallback slot's kind.
pub open spec fn target_from(w: WorkflowView, f: Field, out: Seq<char>) -> Option<Seq<char>> {
    if f.is_conditioning() {
        match found_node(w, NodeKind::KSampler, Some(out)) {
            Some(k) => conditioning_of(w, k, f),
            None => match found_node(w, NodeKind::SamplerCustom, Some(out)) {
                Some(k) => conditioning_of(w, k, f),
                None => None,
            },
        }
    } else {
        match found_node(w, f.spec_primary().spec_kind(), Some(out)) {
            Some(k) => Some(k),
            None => match f.spec_secondary() {
                Some(s2) => found_node(w, s2.spec_kind(), Some(out)),
                None => None,
            },
        }
    }
}

/// Sets field `f` on the node with id `node`; a node-not-found error, with
/// nothing changed, when there is no such node.
pub open spec fn set_field_on(w: WorkflowView, f: Field, node: Seq<char>, v: SlotValue) -> (WorkflowView, Result<(), AccessError>) {
    if contains_id(w, node) {
        set_field_at(w, index_of(w, node), f, v)
    } else {
        (w, Err(AccessError::NodeNotFound))
    }
}

/// Sets field `f` on the node `target_from` names from output node `out`;
/// a node-not-found error, with nothing changed, when `out` is not in the
/// workflow or no such node exists.
pub open spec fn set_field_from(w: WorkflowView, f: Field, out: Seq<char>, v: SlotValue) -> (WorkflowView, Result<(), AccessError>) {
    if !contains_id(w, out) {
        (w, Err(AccessError::NodeNotFound))
    } else {
        match target_from(w, f, out) {
            Some(id) => set_field_on(w, f, id, v),
            None => (w, Err(AccessError::NodeNotFound)),
        }
    }
}

/// A value read from a slot has the type that slot holds.
pub proof fn lemma_read_slot_fits(n: NodeView, s: Slot)
    ensures
        read_slot(n, s) matches Ok(v) ==> s.fits(v),
{
}

/// A value read for a field has the type that field holds.
pub proof fn lemma_get_field_fits(w: WorkflowView, f: Field)
    ensures
        get_field(w, f) matches Ok(v) ==> f.fits(v),
{
    lemma_guessed_index(w, f.spec_primary().spec_kind());
    let i = guessed_index(w, f.spec_primary().spec_kind());
    if i >= 0 {
        lemma_read_slot_fits(w[i].1, f.spec_primary());
    }
    if let Some(s2) = f.spec_secondary() {
        let i2 = guessed_index(w, s2.spec_kind());
        if i2 >= 0 {
            lemma_read_slot_fits(w[i2].1, s2);
        }
    }
}

pub proof fn lemma_write_at(w: WorkflowView, i: int, s: Slot, v: SlotValue)
    requires
        0 <= i < w.len(),
    ensures
        write_at(w, i, s, v).0.len() == w.len(),
        forall|id: Seq<char>| index_of(#[trigger] write_at(w, i, s, v).0, id) == index_of(w, id),
{
    assert forall|id: Seq<char>| index_of(#[trigger] write_at(w, i, s, v).0, id) == index_of(w, id) by {
        if read_slot(w[i].1, s) is Ok {
            lemma_index_of_update(w, i, write_slot(w[i].1, s, v), id);
        }
    }
}

impl Prompt {
    /// Writes `v` into slot `s` of the node at position `i`.
    fn write_at(&mut self, i: usize, s: Slot, v: SlotValue) -> (r: Result<(), AccessError>)
        requires
            i < old(self)@.len(),
            s.fits(v),
        ensures
            (final(self)@, r) == write_at(old(self)@, i as int, s, v),
    {
        assert(self@.len() == self.workflow@.len());
        assert(self@[i as int].1 == self.workflow@[i as int].1@);
        let mut n = self.workflow[i].1.clone();
        let r = write_node_slot(&mut n, s, v);
        match r {
            Ok(()) => {
                assert(r->Ok_0 == ());
                self.replace_node(i, n);
            },
            Err(_) => {},
        }
        r
    }

    /// Reads slot `s` of the node guessed for its kind.
    pub fn get_slot(&self, s: Slot) -> (r: Result<SlotValue, AccessError>)
        ensures
            r == get_slot(self@, s),
    {
        proof {
            lemma_guessed_index(self@, s.spec_kind());
        }
        assert(self@.len() == self.workflow@.len());
        match self.guess_node(s.kind()) {
            Some(i) => read_node_slot(&self.workflow[i].1, s),
            None => Err(AccessError::NodeNotFound),
        }
    }

    /// Writes `v` into slot `s` of the node guessed for its kind.
    pub fn set_slot(&mut self, s: Slot, v: SlotValue) -> (r: Result<(), AccessError>)
        requires
            s.fits(v),
        ensures
            (final(self)@, r) == set_slot(old(self)@, s, v),
    {
        proof {
            lemma_guessed_index(self@, s.spec_kind());
        }
        match self.guess_node(s.kind()) {
            Some(i) => self.write_at(i, s, v),
            None => Err(AccessError::NodeNotFound),
        }
    }

    /// Reads field `f` (see `get_field`).
    pub fn get_field(&self, f: Field) -> (r: Result<SlotValue, AccessError>)
        ensures
            r == get_field(self@, f),
    {
        match f.secondary() {
            None => self.get_slot(f.primary()),
            Some(s2) => match self.get_slot(f.primary()) {
                Ok(v) => Ok(v),
                Err(_) => self.get_slot(s2),
            },
        }
    }

    /// Sets field `f` to `v` (see `set_field`).
    pub fn set_field(&mut self, f: Field, v: SlotValue) -> (r: Result<(), AccessError>)
        requires
            f.fits(v),
        ensures
            (final(self)@, r) == set_field(old(self)@, f, v),
    {
        match f.secondary() {
            None => self.set_slot(f.primary(), v),
            Some(s2) => if self.get_slot(f.primary()).is_ok() {
                self.set_slot(f.primary(), v)
            } else {
                self.set_slot(s2, v)
            },
        }
    }

    /// Sets field `f` on the node at position `i` (see `set_field_at`).
    pub fn set_field_at(&mut self, i: usize, f: Field, v: SlotValue) -> (r: Result<(), AccessError>)
        requires
            i < old(self)@.len(),
            f.fits(v),
        ensures
            (final(self)@, r) == set_field_at(old(self)@, i as int, f, v),
    {
        assert(self@.len() == self.workflow@.len());
        match f.secondary() {
            None => self.write_at(i, f.primary(), v),
            Some(s2) => if read_node_slot(&self.workflow[i].1, f.primary()).is_ok() {
                self.write_at(i, f.primary(), v)
            } else {
                self.write_at(i, s2, v)
            },
        }
    }

    /// Sets field `f` on the node with id `node` (see `set_field_on`).
    pub fn set_field_on(&mut self, f: Field, node: &str, v: SlotValue) -> (r: Result<(), AccessError>)
        requires
            f.fits(v),
        ensures
            (final(self)@, r) == set_field_on(old(self)@, f, node@, v),
    {
        proof {
            lemma_index_of(self@, node@);
        }
        match self.index_of_node(node) {
            Some(i) => self.set_field_at(i, f, v),
            None => Err(AccessError::NodeNotFound),
        }
    }

    /// The conditioning input of the sampler node with id `k`.
    fn conditioning_of(&self, k: &str, f: Field) -> (r: Option<String>)
        ensures
            r matches Some(s) ==> conditioning_of(self@, k@, f) == Some(s@),
            r is None ==> conditioning_of(self@, k@, f) is None,
    {
        match self.get_node_by_id(k) {
            Some(NodeOrUnknown::Node(Node::KSampler(x))) => if f == Field::Prompt {
                Some(x.positive.node_id.clone())
            } else {
                Some(x.negative.node_id.clone())
            },
            Some(NodeOrUnknown::Node(Node::SamplerCustom(x))) => if f == Field::Prompt {
                Some(x.positive.node_id.clone())
            } else {
                Some(x.negative.node_id.clone())
            },
            _ => None,
        }
    }

    /// The id of the node field `f` is written to from output node `out`
    /// (see `target_from`).
    pub fn target_from(&self, f: Field, out: &str) -> (r: Option<String>)
        requires
            contains_id(self@, out@),
        ensures
            r matches Some(s) ==> target_from(self@, f, out@) == Some(s@),
            r is None ==> target_from(self@, f, out@) is None,
    {
        if f == Field::Prompt || f == Field::NegativePrompt {
            match self.find_node(NodeKind::KSampler, Some(out)) {
                Some(k) => self.conditioning_of(k.as_str(), f),
                None => match self.find_node(NodeKind::SamplerCustom, Some(out)) {
                    Some(k) => self.conditioning_of(k.as_str(), f),
                    None => None,
                },
            }
        } else {
            match self.find_node(f.primary().kind(), Some(out)) {
                Some(k) => Some(k),
                None => match f.secondary() {
                    Some(s2) => self.find_node(s2.kind(), Some(out)),
                    None => None,
                },
            }
        }
    }

    /// Sets field `f` on the node reached from output node `out` (see
    /// `set_field_from`).
    pub fn set_field_from(&mut self, f: Field, out: &str, v: SlotValue) -> (r: Result<(), AccessError>)
        requires
            f.fits(v),
        ensures
            (final(self)@, r) == set_field_from(old(self)@, f, out@, v),
    {
        if self.index_of_node(out).is_none() {
            return Err(AccessError::NodeNotFound);
        }
        match self.target_from(f, out) {
            Some(id) => {
                proof {
                    lemma_index_of(self@, id@);
                }
                match self.index_of_node(id.as_str()) {
                    Some(i) => self.set_field_at(i, f, v),
                    None => Err(AccessError::NodeNotFound),
                }
            },
            None => Err(AccessError::NodeNotFound),
        }
    }
}

} // verus!
