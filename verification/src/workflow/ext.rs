use vstd::prelude::*;

use crate::float_bits::FloatBits;
use crate::workflow::access::{
    get_field, lemma_get_field_fits, set_field, AccessError, Field, SlotValue,
};
use crate::workflow::node::{Node, NodeKind, NodeOrUnknown, NodeView};
use crate::workflow::prompt::{contains_id, node, Prompt};

verus! {

impl Prompt {
    /// Reads a text field (see `get_field`).
    pub fn get_text(&self, f: Field) -> (r: Result<String, AccessError>)
        requires
            f == Field::Prompt || f == Field::NegativePrompt || f == Field::Model || f
                == Field::Sampler || f == Field::Image,
        ensures
            r is Ok <==> get_field(self@, f) is Ok,
            r matches Ok(v) ==> get_field(self@, f) == Ok::<SlotValue, AccessError>(SlotValue::Text(v)),
            r matches Err(e) ==> get_field(self@, f) == Err::<SlotValue, AccessError>(e),
    {
        proof {
            lemma_get_field_fits(self@, f);
        }
        match self.get_field(f) {
            Ok(SlotValue::Text(v)) => Ok(v),
            Ok(_) => Err(AccessError::WrongNodeType),
            Err(e) => Err(e),
        }
    }

    /// Reads a count field (see `get_field`).
    pub fn get_count(&self, f: Field) -> (r: Result<u32, AccessError>)
        requires
            f == Field::Width || f == Field::Height || f == Field::Steps || f == Field::BatchSize,
        ensures
            r is Ok <==> get_field(self@, f) is Ok,
            r matches Ok(v) ==> get_field(self@, f) == Ok::<SlotValue, AccessError>(SlotValue::Count(v)),
            r matches Err(e) ==> get_field(self@, f) == Err::<SlotValue, AccessError>(e),
    {
        proof {
            lemma_get_field_fits(self@, f);
        }
        match self.get_field(f) {
            Ok(SlotValue::Count(v)) => Ok(v),
            Ok(_) => Err(AccessError::WrongNodeType),
            Err(e) => Err(e),
        }
    }

    /// Reads a seed field (see `get_field`).
    pub fn get_seed(&self, f: Field) -> (r: Result<i64, AccessError>)
        requires
            f == Field::Seed,
        ensures
            r is Ok <==> get_field(self@, f) is Ok,
            r matches Ok(v) ==> get_field(self@, f) == Ok::<SlotValue, AccessError>(SlotValue::Seed(v)),
            r matches Err(e) ==> get_field(self@, f) == Err::<SlotValue, AccessError>(e),
    {
        proof {
            lemma_get_field_fits(self@, f);
        }
        match self.get_field(f) {
            Ok(SlotValue::Seed(v)) => Ok(v),
            Ok(_) => Err(AccessError::WrongNodeType),
            Err(e) => Err(e),
        }
    }

    /// Reads a floating-point field (see `get_field`).
    pub fn get_real(&self, f: Field) -> (r: Result<FloatBits, AccessError>)
        requires
            f == Field::Cfg || f == Field::Denoise,
        ensures
            r is Ok <==> get_field(self@, f) is Ok,
            r matches Ok(v) ==> get_field(self@, f) == Ok::<SlotValue, AccessError>(SlotValue::Real(v)),
            r matches Err(e) ==> get_field(self@, f) == Err::<SlotValue, AccessError>(e),
    {
        proof {
            lemma_get_field_fits(self@, f);
        }
        match self.get_field(f) {
            Ok(SlotValue::Real(v)) => Ok(v),
            Ok(_) => Err(AccessError::WrongNodeType),
            Err(e) => Err(e),
        }
    }
}

/// Extension methods for `Prompt` to get nodes of a given kind by id.
pub trait GetExt {
    /// Gets the node with id `node`, which must be of kind `kind`.
    fn get_typed_node(&self, node: &str, kind: NodeKind) -> Result<&Node, AccessError>;
}

impl GetExt for Prompt {
    fn get_typed_node(&self, id: &str, kind: NodeKind) -> (r: Result<&Node, AccessError>)
        ensures
            !contains_id(self@, id@) ==> r == Err::<&Node, AccessError>(AccessError::NodeNotFound),
            contains_id(self@, id@) ==> match node(self@, id@) {
                Some(NodeView::Known(n)) => if n.spec_kind() == kind {
                    r == Ok::<&Node, AccessError>(&n)
                } else {
                    r == Err::<&Node, AccessError>(AccessError::WrongNodeType)
                },
                _ => r == Err::<&Node, AccessError>(AccessError::WrongNodeType),
            },
    {
        match self.get_node_by_id(id) {
            Some(NodeOrUnknown::Node(n)) => if n.kind() == kind {
                Ok(n)
            } else {
                Err(AccessError::WrongNodeType)
            },
            Some(NodeOrUnknown::GenericNode(_)) => Err(AccessError::WrongNodeType),
            None => Err(AccessError::NodeNotFound),
        }
    }
}

/// Reads and writes the prompt text of a workflow.
pub trait PromptExt {
    /// Gets the prompt text.
    fn prompt(&self) -> Result<String, AccessError>;

    /// Sets the prompt text.
    fn set_prompt(&mut self, value: String) -> Result<(), AccessError>;
}

impl PromptExt for Prompt {
    fn prompt(&self) -> (r: Result<String, AccessError>)
        ensures
            r is Ok <==> get_field(self@, Field::Prompt) is Ok,
            r matches Ok(v) ==> get_field(self@, Field::Prompt) == Ok::<SlotValue, AccessError>(SlotValue::Text(v)),
            r matches Err(e) ==> get_field(self@, Field::Prompt) == Err::<SlotValue, AccessError>(e),
    {
        self.get_text(Field::Prompt)
    }

    fn set_prompt(&mut self, value: String) -> (r: Result<(), AccessError>)
        ensures
            (final(self)@, r) == set_field(old(self)@, Field::Prompt, SlotValue::Text(value)),
    {
        self.set_field(Field::Prompt, SlotValue::Text(value))
    }
}

/// Reads and writes the negative prompt text of a workflow.
pub trait NegativePromptExt {
    /// Gets the negative prompt text.
    fn negative_prompt(&self) -> Result<String, AccessError>;

    /// Sets the negative prompt text.
    fn set_negative_prompt(&mut self, value: String) -> Result<(), AccessError>;
}

impl NegativePromptExt for Prompt {
    fn negative_prompt(&self) -> (r: Result<String, AccessError>)
        ensures
            r is Ok <==> get_field(self@, Field::NegativePrompt) is Ok,
            r matches Ok(v) ==> get_field(self@, Field::NegativePrompt) == Ok::<SlotValue, AccessError>(SlotValue::Text(v)),
            r matches Err(e) ==> get_field(self@, Field::NegativePrompt) == Err::<SlotValue, AccessError>(e),
    {
        self.get_text(Field::NegativePrompt)
    }

    fn set_negative_prompt(&mut self, value: String) -> (r: Result<(), AccessError>)
        ensures
            (final(self)@, r) == set_field(old(self)@, Field::NegativePrompt, SlotValue::Text(value)),
    {
        self.set_field(Field::NegativePrompt, SlotValue::Text(value))
    }
}

/// Reads and writes the checkpoint name of a workflow.
pub trait ModelExt {
    /// Gets the checkpoint name.
    fn ckpt_name(&self) -> Result<String, AccessError>;

    /// Sets the checkpoint name.
    fn set_ckpt_name(&mut self, value: String) -> Result<(), AccessError>;
}

impl ModelExt for Prompt {
    fn ckpt_name(&self) -> (r: Result<String, AccessError>)
        ensures
            r is Ok <==> get_field(self@, Field::Model) is Ok,
            r matches Ok(v) ==> get_field(self@, Field::Model) == Ok::<SlotValue, AccessError>(SlotValue::Text(v)),
            r matches Err(e) ==> get_field(self@, Field::Model) == Err::<SlotValue, AccessError>(e),
    {
        self.get_text(Field::Model)
    }

    fn set_ckpt_name(&mut self, value: String) -> (r: Result<(), AccessError>)
        ensures
            (final(self)@, r) == set_field(old(self)@, Field::Model, SlotValue::Text(value)),
    {
        self.set_field(Field::Model, SlotValue::Text(value))
    }
}

/// Reads and writes the image width of a workflow.
pub trait WidthExt {
    /// Gets the image width.
    fn width(&self) -> Result<u32, AccessError>;

    /// Sets the image width.
    fn set_width(&mut self, value: u32) -> Result<(), AccessError>;
}

impl WidthExt for Prompt {
    fn width(&self) -> (r: Result<u32, AccessError>)
        ensures
            r is Ok <==> get_field(self@, Field::Width) is Ok,
            r matches Ok(v) ==> get_field(self@, Field::Width) == Ok::<SlotValue, AccessError>(SlotValue::Count(v)),
            r matches Err(e) ==> get_field(self@, Field::Width) == Err::<SlotValue, AccessError>(e),
    {
        self.get_count(Field::Width)
    }

    fn set_width(&mut self, value: u32) -> (r: Result<(), AccessError>)
        ensures
            (final(self)@, r) == set_field(old(self)@, Field::Width, SlotValue::Count(value)),
    {
        self.set_field(Field::Width, SlotValue::Count(value))
    }
}

/// Reads and writes the image height of a workflow.
pub trait HeightExt {
    /// Gets the image height.
    fn height(&self) -> Result<u32, AccessError>;

    /// Sets the image height.
    fn set_height(&mut self, value: u32) -> Result<(), AccessError>;
}

impl HeightExt for Prompt {
    fn height(&self) -> (r: Result<u32, AccessError>)
        ensures
            r is Ok <==> get_field(self@, Field::Height) is Ok,
            r matches Ok(v) ==> get_field(self@, Field::Height) == Ok::<SlotValue, AccessError>(SlotValue::Count(v)),
            r matches Err(e) ==> get_field(self@, Field::Height) == Err::<SlotValue, AccessError>(e),
    {
        self.get_count(Field::Height)
    }

    fn set_height(&mut self, value: u32) -> (r: Result<(), AccessError>)
        ensures
            (final(self)@, r) == set_field(old(self)@, Field::Height, SlotValue::Count(value)),
    {
        self.set_field(Field::Height, SlotValue::Count(value))
    }
}

/// Reads and writes the seed of a workflow.
pub trait SeedExt {
    /// Gets the seed.
    fn seed(&self) -> Result<i64, AccessError>;

    /// Sets the seed.
    fn set_seed(&mut self, value: i64) -> Result<(), AccessError>;
}

impl SeedExt for Prompt {
    fn seed(&self) -> (r: Result<i64, AccessError>)
        ensures
            r is Ok <==> get_field(self@, Field::Seed) is Ok,
            r matches Ok(v) ==> get_field(self@, Field::Seed) == Ok::<SlotValue, AccessError>(SlotValue::Seed(v)),
            r matches Err(e) ==> get_field(self@, Field::Seed) == Err::<SlotValue, AccessError>(e),
    {
        self.get_seed(Field::Seed)
    }

    fn set_seed(&mut self, value: i64) -> (r: Result<(), AccessError>)
        ensures
            (final(self)@, r) == set_field(old(self)@, Field::Seed, SlotValue::Seed(value)),
    {
        self.set_field(Field::Seed, SlotValue::Seed(value))
    }
}

/// Reads and writes the number of steps of a workflow.
pub trait StepsExt {
    /// Gets the number of steps.
    fn steps(&self) -> Result<u32, AccessError>;

    /// Sets the number of steps.
    fn set_steps(&mut self, value: u32) -> Result<(), AccessError>;
}

impl StepsExt for Prompt {
    fn steps(&self) -> (r: Result<u32, AccessError>)
        ensures
            r is Ok <==> get_field(self@, Field::Steps) is Ok,
            r matches Ok(v) ==> get_field(self@, Field::Steps) == Ok::<SlotValue, AccessError>(SlotValue::Count(v)),
            r matches Err(e) ==> get_field(self@, Field::Steps) == Err::<SlotValue, AccessError>(e),
    {
        self.get_count(Field::Steps)
    }

    fn set_steps(&mut self, value: u32) -> (r: Result<(), AccessError>)
        ensures
            (final(self)@, r) == set_field(old(self)@, Field::Steps, SlotValue::Count(value)),
    {
        self.set_field(Field::Steps, SlotValue::Count(value))
    }
}

/// Reads and writes the cfg scale of a workflow.
pub trait CfgExt {
    /// Gets the cfg scale.
    fn cfg(&self) -> Result<FloatBits, AccessError>;

    /// Sets the cfg scale.
    fn set_cfg(&mut self, value: FloatBits) -> Result<(), AccessError>;
}

impl CfgExt for Prompt {
    fn cfg(&self) -> (r: Result<FloatBits, AccessError>)
        ensures
            r is Ok <==> get_field(self@, Field::Cfg) is Ok,
            r matches Ok(v) ==> get_field(self@, Field::Cfg) == Ok::<SlotValue, AccessError>(SlotValue::Real(v)),
            r matches Err(e) ==> get_field(self@, Field::Cfg) == Err::<SlotValue, AccessError>(e),
    {
        self.get_real(Field::Cfg)
    }

    fn set_cfg(&mut self, value: FloatBits) -> (r: Result<(), AccessError>)
        ensures
            (final(self)@, r) == set_field(old(self)@, Field::Cfg, SlotValue::Real(value)),
    {
        self.set_field(Field::Cfg, SlotValue::Real(value))
    }
}

/// Reads and writes the denoise strength of a workflow.
pub trait DenoiseExt {
    /// Gets the denoise strength.
    fn denoise(&self) -> Result<FloatBits, AccessError>;

    /// Sets the denoise strength.
    fn set_denoise(&mut self, value: FloatBits) -> Result<(), AccessError>;
}

impl DenoiseExt for Prompt {
    fn denoise(&self) -> (r: Result<FloatBits, AccessError>)
        ensures
            r is Ok <==> get_field(self@, Field::Denoise) is Ok,
            r matches Ok(v) ==> get_field(self@, Field::Denoise) == Ok::<SlotValue, AccessError>(SlotValue::Real(v)),
            r matches Err(e) ==> get_field(self@, Field::Denoise) == Err::<SlotValue, AccessError>(e),
    {
        self.get_real(Field::Denoise)
    }

    fn set_denoise(&mut self, value: FloatBits) -> (r: Result<(), AccessError>)
        ensures
            (final(self)@, r) == set_field(old(self)@, Field::Denoise, SlotValue::Real(value)),
    {
        self.set_field(Field::Denoise, SlotValue::Real(value))
    }
}

/// Reads and writes the sampler name of a workflow.
pub trait SamplerExt {
    /// Gets the sampler name.
    fn sampler_name(&self) -> Result<String, AccessError>;

    /// Sets the sampler name.
    fn set_sampler_name(&mut self, value: String) -> Result<(), AccessError>;
}

impl SamplerExt for Prompt {
    fn sampler_name(&self) -> (r: Result<String, AccessError>)
        ensures
            r is Ok <==> get_field(self@, Field::Sampler) is Ok,
            r matches Ok(v) ==> get_field(self@, Field::Sampler) == Ok::<SlotValue, AccessError>(SlotValue::Text(v)),
            r matches Err(e) ==> get_field(self@, Field::Sampler) == Err::<SlotValue, AccessError>(e),
    {
        self.get_text(Field::Sampler)
    }

    fn set_sampler_name(&mut self, value: String) -> (r: Result<(), AccessError>)
        ensures
            (final(self)@, r) == set_field(old(self)@, Field::Sampler, SlotValue::Text(value)),
    {
        self.set_field(Field::Sampler, SlotValue::Text(value))
    }
}

/// Reads and writes the batch size of a workflow.
pub trait BatchSizeExt {
    /// Gets the batch size.
    fn batch_size(&self) -> Result<u32, AccessError>;

    /// Sets the batch size.
    fn set_batch_size(&mut self, value: u32) -> Result<(), AccessError>;
}

impl BatchSizeExt for Prompt {
    fn batch_size(&self) -> (r: Result<u32, AccessError>)
        ensures
            r is Ok <==> get_field(self@, Field::BatchSize) is Ok,
            r matches Ok(v) ==> get_field(self@, Field::BatchSize) == Ok::<SlotValue, AccessError>(SlotValue::Count(v)),
            r matches Err(e) ==> get_field(self@, Field::BatchSize) == Err::<SlotValue, AccessError>(e),
    {
        self.get_count(Field::BatchSize)
    }

    fn set_batch_size(&mut self, value: u32) -> (r: Result<(), AccessError>)
        ensures
            (final(self)@, r) == set_field(old(self)@, Field::BatchSize, SlotValue::Count(value)),
    {
        self.set_field(Field::BatchSize, SlotValue::Count(value))
    }
}

/// Reads and writes the name of the input image of a workflow.
pub trait LoadImageExt {
    /// Gets the name of the input image.
    fn image(&self) -> Result<String, AccessError>;

    /// Sets the name of the input image.
    fn set_image(&mut self, value: String) -> Result<(), AccessError>;
}

impl LoadImageExt for Prompt {
    fn image(&self) -> (r: Result<String, AccessError>)
        ensures
            r is Ok <==> get_field(self@, Field::Image) is Ok,
            r matches Ok(v) ==> get_field(self@, Field::Image) == Ok::<SlotValue, AccessError>(SlotValue::Text(v)),
            r matches Err(e) ==> get_field(self@, Field::Image) == Err::<SlotValue, AccessError>(e),
    {
        self.get_text(Field::Image)
    }

    fn set_image(&mut self, value: String) -> (r: Result<(), AccessError>)
        ensures
            (final(self)@, r) == set_field(old(self)@, Field::Image, SlotValue::Text(value)),
    {
        self.set_field(Field::Image, SlotValue::Text(value))
    }
}

} // verus!
