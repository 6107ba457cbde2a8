use vstd::prelude::*;

use crate::float_bits::FloatBits;
use crate::text::{ids, lemma_ids_push};

verus! {

/// Struct representing a node input connection.
#[derive(Debug, PartialEq)]
pub struct NodeConnection {
    /// The node id of the node providing the input.
    pub node_id: String,
    /// The index of the output from the node providing the input.
    pub output_index: u32,
}

impl Clone for NodeConnection {
    fn clone(&self) -> (r: Self)
        ensures
            r == *self,
    {
        NodeConnection { node_id: self.node_id.clone(), output_index: self.output_index }
    }
}

impl NodeConnection {
    /// A connection to output `output_index` of node `node_id`.
    pub fn from_parts(parts: (String, u32)) -> (r: Self)
        ensures
            r.node_id == parts.0,
            r.output_index == parts.1,
    {
        let (node_id, output_index) = parts;
        NodeConnection { node_id, output_index }
    }

    /// The node id and output index of the connection.
    pub fn into_parts(self) -> (r: (String, u32))
        ensures
            r.0 == self.node_id,
            r.1 == self.output_index,
    {
        (self.node_id, self.output_index)
    }
}

/// Enum of inputs to a node.
#[derive(Debug, PartialEq)]
pub enum Input<T> {
    /// Node connection input variant.
    NodeConnection(NodeConnection),
    /// Widget input variant.
    Value(T),
}

/// The node ids an input refers to: one for a connection, none for a value.
pub open spec fn input_ids<T>(i: Input<T>) -> Seq<Seq<char>> {
    match i {
        Input::NodeConnection(c) => seq![c.node_id@],
        Input::Value(_) => seq![],
    }
}

impl<T> Input<T> {
    /// Get the value of the input.
    pub fn value(&self) -> (r: Option<&T>)
        ensures
            r is Some <==> self is Value,
            r matches Some(v) ==> *v == self->Value_0,
    {
        match self {
            Input::NodeConnection(_) => None,
            Input::Value(value) => Some(value),
        }
    }

    /// Get the node connection of the input.
    pub fn node_connection(&self) -> (r: Option<&NodeConnection>)
        ensures
            r is Some <==> self is NodeConnection,
            r matches Some(c) ==> *c == self->NodeConnection_0,
    {
        match self {
            Input::NodeConnection(node_connection) => Some(node_connection),
            Input::Value(_) => None,
        }
    }

    /// Get the node id of the input.
    pub fn node_id(&self) -> (r: Option<&str>)
        ensures
            r is Some <==> self is NodeConnection,
            r matches Some(id) ==> id@ == self->NodeConnection_0.node_id@,
    {
        match self.node_connection() {
            Some(node_connection) => Some(node_connection.node_id.as_str()),
            None => None,
        }
    }

    /// Replaces the value of a widget input; a connection is left as it is.
    /// Returns whether the input held a value.
    pub fn set_value(&mut self, value: T) -> (r: bool)
        ensures
            r == (*old(self) is Value),
            r ==> *final(self) == Input::<T>::Value(value),
            !r ==> *final(self) == *old(self),
    {
        match self {
            Input::NodeConnection(_) => false,
            Input::Value(v) => {
                *v = value;
                true
            },
        }
    }
}

impl Clone for Input<String> {
    fn clone(&self) -> (r: Self)
        ensures
            r == *self,
    {
        match self {
            Input::NodeConnection(c) => Input::NodeConnection(c.clone()),
            Input::Value(v) => Input::Value(v.clone()),
        }
    }
}

impl Clone for Input<u32> {
    fn clone(&self) -> (r: Self)
        ensures
            r == *self,
    {
        match self {
            Input::NodeConnection(c) => Input::NodeConnection(c.clone()),
            Input::Value(v) => Input::Value(*v),
        }
    }
}

impl Clone for Input<i64> {
    fn clone(&self) -> (r: Self)
        ensures
            r == *self,
    {
        match self {
            Input::NodeConnection(c) => Input::NodeConnection(c.clone()),
            Input::Value(v) => Input::Value(*v),
        }
    }
}

impl Clone for Input<bool> {
    fn clone(&self) -> (r: Self)
        ensures
            r == *self,
    {
        match self {
            Input::NodeConnection(c) => Input::NodeConnection(c.clone()),
            Input::Value(v) => Input::Value(*v),
        }
    }
}

impl Clone for Input<FloatBits> {
    fn clone(&self) -> (r: Self)
        ensures
            r == *self,
    {
        match self {
            Input::NodeConnection(c) => Input::NodeConnection(c.clone()),
            Input::Value(v) => Input::Value(*v),
        }
    }
}

fn push_input_id<T>(out: &mut Vec<String>, i: &Input<T>)
    ensures
        ids(final(out)@) == ids(old(out)@) + input_ids(*i),
{
    match i {
        Input::NodeConnection(c) => {
            let ghost before = out@;
            out.push(c.node_id.clone());
            proof {
                lemma_ids_push(before, c.node_id);
                assert(ids(before).push(c.node_id@) =~= ids(before) + input_ids(*i));
            }
        },
        Input::Value(_) => {
            assert(ids(old(out)@) + input_ids(*i) =~= ids(old(out)@));
        },
    }
}

fn push_connection_id(out: &mut Vec<String>, c: &NodeConnection)
    ensures
        ids(final(out)@) == ids(old(out)@) + seq![c.node_id@],
{
    let ghost before = out@;
    out.push(c.node_id.clone());
    proof {
        lemma_ids_push(before, c.node_id);
        assert(ids(before).push(c.node_id@) =~= ids(before) + seq![c.node_id@]);
    }
}

/// Enum of possible generic node input types.
#[derive(Debug, PartialEq)]
pub enum GenericValue {
    /// Bool input variant.
    Bool(bool),
    /// Integer input variant.
    Int(i64),
    /// Float input variant.
    Float(FloatBits),
    /// String input variant.
    String(String),
    /// Node connection input variant.
    NodeConnection(NodeConnection),
}

impl Clone for GenericValue {
    fn clone(&self) -> (r: Self)
        ensures
            r == *self,
    {
        match self {
            GenericValue::Bool(b) => GenericValue::Bool(*b),
            GenericValue::Int(i) => GenericValue::Int(*i),
            GenericValue::Float(f) => GenericValue::Float(*f),
            GenericValue::String(s) => GenericValue::String(s.clone()),
            GenericValue::NodeConnection(c) => GenericValue::NodeConnection(c.clone()),
        }
    }
}

/// The node ids a generic value refers to.
pub open spec fn generic_value_ids(v: GenericValue) -> Seq<Seq<char>> {
    match v {
        GenericValue::NodeConnection(c) => seq![c.node_id@],
        _ => seq![],
    }
}

impl GenericValue {
    /// Get the node id of the input.
    pub fn node_id(&self) -> (r: Option<&str>)
        ensures
            r is Some <==> self is NodeConnection,
            r matches Some(id) ==> id@ == self->NodeConnection_0.node_id@,
    {
        match self {
            GenericValue::NodeConnection(node_connection) => Some(node_connection.node_id.as_str()),
            _ => None,
        }
    }
}

/// Struct representing a node of a class this library does not model.
#[derive(Debug, PartialEq)]
pub struct GenericNode {
    /// The node class type.
    pub class_type: String,
    /// The node inputs, by name.
    pub inputs: Vec<(String, GenericValue)>,
}

/// The node ids referred to by the first `n` inputs of a generic node.
pub open spec fn generic_inputs_ids(inputs: Seq<(String, GenericValue)>, n: int) -> Seq<Seq<char>>
    decreases n,
{
    if n <= 0 {
        seq![]
    } else {
        generic_inputs_ids(inputs, n - 1) + generic_value_ids(inputs[n - 1].1)
    }
}

impl View for GenericNode {
    type V = (Seq<char>, Seq<(String, GenericValue)>);

    open spec fn view(&self) -> Self::V {
        (self.class_type@, self.inputs@)
    }
}

impl Clone for GenericNode {
    fn clone(&self) -> (r: Self)
        ensures
            r@ == self@,
    {
        let mut inputs: Vec<(String, GenericValue)> = Vec::new();
        let mut i: usize = 0;
        while i < self.inputs.len()
            invariant
                i <= self.inputs.len(),
                inputs@ == self.inputs@.take(i as int),
            decreases self.inputs.len() - i,
        {
            let (k, v) = &self.inputs[i];
            inputs.push((k.clone(), v.clone()));
            i += 1;
            assert(inputs@ =~= self.inputs@.take(i as int));
        }
        assert(inputs@ =~= self.inputs@);
        GenericNode { class_type: self.class_type.clone(), inputs }
    }
}

impl GenericNode {
    /// The ids of the nodes this node takes input from, in input order.
    pub open spec fn spec_connections(self) -> Seq<Seq<char>> {
        generic_inputs_ids(self.inputs@, self.inputs@.len() as int)
    }

    /// The ids of the nodes this node takes input from.
    pub fn connections(&self) -> (r: Vec<String>)
        ensures
            ids(r@) == self.spec_connections(),
    {
        let mut r: Vec<String> = Vec::new();
        let mut i: usize = 0;
        while i < self.inputs.len()
            invariant
                i <= self.inputs.len(),
                ids(r@) == generic_inputs_ids(self.inputs@, i as int),
            decreases self.inputs.len() - i,
        {
            let ghost before = r@;
            match &self.inputs[i].1 {
                GenericValue::NodeConnection(c) => {
                    r.push(c.node_id.clone());
                    proof {
                        lemma_ids_push(before, c.node_id);
                    }
                    assert(ids(r@) =~= generic_inputs_ids(self.inputs@, i + 1));
                },
                _ => {
                    assert(ids(r@) =~= generic_inputs_ids(self.inputs@, i + 1));
                },
            }
            i += 1;
        }
        r
    }
}

/// Struct representing a KSampler node.
#[derive(Debug, PartialEq)]
pub struct KSampler {
    /// The cfg scale parameter.
    pub cfg: Input<FloatBits>,
    /// The denoise parameter.
    pub denoise: Input<FloatBits>,
    /// The sampler name.
    pub sampler_name: Input<String>,
    /// The scheduler used.
    pub scheduler: Input<String>,
    /// The seed.
    pub seed: Input<i64>,
    /// The number of steps.
    pub steps: Input<u32>,
    /// The positive conditioning input connection.
    pub positive: NodeConnection,
    /// The negative conditioning input connection.
    pub negative: NodeConnection,
    /// The model input connection.
    pub model: NodeConnection,
    /// The latent image input connection.
    pub latent_image: NodeConnection,
}

impl Clone for KSampler {
    fn clone(&self) -> (r: Self)
        ensures
            r == *self,
    {
        KSampler {
            cfg: self.cfg.clone(),
            denoise: self.denoise.clone(),
            sampler_name: self.sampler_name.clone(),
            scheduler: self.scheduler.clone(),
            seed: self.seed.clone(),
            steps: self.steps.clone(),
            positive: self.positive.clone(),
            negative: self.negative.clone(),
            model: self.model.clone(),
            latent_image: self.latent_image.clone(),
        }
    }
}

impl KSampler {
    /// The ids of the nodes this node takes input from, in field order.
    pub open spec fn spec_connections(self) -> Seq<Seq<char>> {
        input_ids(self.cfg)
            + input_ids(self.denoise)
            + input_ids(self.sampler_name)
            + input_ids(self.scheduler)
            + input_ids(self.seed)
            + input_ids(self.steps)
            + seq![self.positive.node_id@]
            + seq![self.negative.node_id@]
            + seq![self.model.node_id@]
            + seq![self.latent_image.node_id@]
    }

    /// The ids of the nodes this node takes input from.
    pub fn connections(&self) -> (r: Vec<String>)
        ensures
            ids(r@) == self.spec_connections(),
    {
        let mut r: Vec<String> = Vec::new();
        push_input_id(&mut r, &self.cfg);
        push_input_id(&mut r, &self.denoise);
        push_input_id(&mut r, &self.sampler_name);
        push_input_id(&mut r, &self.scheduler);
        push_input_id(&mut r, &self.seed);
        push_input_id(&mut r, &self.steps);
        push_connection_id(&mut r, &self.positive);
        push_connection_id(&mut r, &self.negative);
        push_connection_id(&mut r, &self.model);
        push_connection_id(&mut r, &self.latent_image);
        assert(ids(r@) =~= self.spec_connections());
        r
    }
}

/// Struct representing a CLIPTextEncode node.
#[derive(Debug, PartialEq)]
pub struct CLIPTextEncode {
    /// The text to encode.
    pub text: Input<String>,
    /// The CLIP model input connection.
    pub clip: NodeConnection,
}

impl Clone for CLIPTextEncode {
    fn clone(&self) -> (r: Self)
        ensures
            r == *self,
    {
        CLIPTextEncode {
            text: self.text.clone(),
            clip: self.clip.clone(),
        }
    }
}

impl CLIPTextEncode {
    /// The ids of the nodes this node takes input from, in field order.
    pub open spec fn spec_connections(self) -> Seq<Seq<char>> {
        input_ids(self.text)
            + seq![self.clip.node_id@]
    }

    /// The ids of the nodes this node takes input from.
    pub fn connections(&self) -> (r: Vec<String>)
        ensures
            ids(r@) == self.spec_connections(),
    {
        let mut r: Vec<String> = Vec::new();
        push_input_id(&mut r, &self.text);
        push_connection_id(&mut r, &self.clip);
        assert(ids(r@) =~= self.spec_connections());
        r
    }
}

/// Struct representing an EmptyLatentImage node.
#[derive(Debug, PartialEq)]
pub struct EmptyLatentImage {
    /// The batch size.
    pub batch_size: Input<u32>,
    /// The image width.
    pub width: Input<u32>,
    /// The image height.
    pub height: Input<u32>,
}

impl Clone for EmptyLatentImage {
    fn clone(&self) -> (r: Self)
        ensures
            r == *self,
    {
        EmptyLatentImage {
            batch_size: self.batch_size.clone(),
            width: self.width.clone(),
            height: self.height.clone(),
        }
    }
}

impl EmptyLatentImage {
    /// The ids of the nodes this node takes input from, in field order.
    pub open spec fn spec_connections(self) -> Seq<Seq<char>> {
        input_ids(self.batch_size)
            + input_ids(self.width)
            + input_ids(self.height)
    }

    /// The ids of the nodes this node takes input from.
    pub fn connections(&self) -> (r: Vec<String>)
        ensures
            ids(r@) == self.spec_connections(),
    {
        let mut r: Vec<String> = Vec::new();
        push_input_id(&mut r, &self.batch_size);
        push_input_id(&mut r, &self.width);
        push_input_id(&mut r, &self.height);
        assert(ids(r@) =~= self.spec_connections());
        r
    }
}

/// Struct representing a CheckpointLoaderSimple node.
#[derive(Debug, PartialEq)]
pub struct CheckpointLoaderSimple {
    /// The checkpoint name.
    pub ckpt_name: Input<String>,
}

impl Clone for CheckpointLoaderSimple {
    fn clone(&self) -> (r: Self)
        ensures
            r == *self,
    {
        CheckpointLoaderSimple {
            ckpt_name: self.ckpt_name.clone(),
        }
    }
}

impl CheckpointLoaderSimple {
    /// The ids of the nodes this node takes input from, in field order.
    pub open spec fn spec_connections(self) -> Seq<Seq<char>> {
        input_ids(self.ckpt_name)
    }

    /// The ids of the nodes this node takes input from.
    pub fn connections(&self) -> (r: Vec<String>)
        ensures
            ids(r@) == self.spec_connections(),
    {
        let mut r: Vec<String> = Vec::new();
        push_input_id(&mut r, &self.ckpt_name);
        assert(ids(r@) =~= self.spec_connections());
        r
    }
}

/// Struct representing a VAELoader node.
#[derive(Debug, PartialEq)]
pub struct VAELoader {
    /// The VAE name.
    pub vae_name: Input<String>,
}

impl Clone for VAELoader {
    fn clone(&self) -> (r: Self)
        ensures
            r == *self,
    {
        VAELoader {
            vae_name: self.vae_name.clone(),
        }
    }
}

impl VAELoader {
    /// The ids of the nodes this node takes input from, in field order.
    pub open spec fn spec_connections(self) -> Seq<Seq<char>> {
        input_ids(self.vae_name)
    }

    /// The ids of the nodes this node takes input from.
    pub fn connections(&self) -> (r: Vec<String>)
        ensures
            ids(r@) == self.spec_connections(),
    {
        let mut r: Vec<String> = Vec::new();
        push_input_id(&mut r, &self.vae_name);
        assert(ids(r@) =~= self.spec_connections());
        r
    }
}

/// Struct representing a VAEDecode node.
#[derive(Debug, PartialEq)]
pub struct VAEDecode {
    /// Latent output samples to decode.
    pub samples: NodeConnection,
    /// VAE model input connection.
    pub vae: NodeConnection,
}

impl Clone for VAEDecode {
    fn clone(&self) -> (r: Self)
        ensures
            r == *self,
    {
        VAEDecode {
            samples: self.samples.clone(),
            vae: self.vae.clone(),
        }
    }
}

impl VAEDecode {
    /// The ids of the nodes this node takes input from, in field order.
    pub open spec fn spec_connections(self) -> Seq<Seq<char>> {
        seq![self.samples.node_id@]
            + seq![self.vae.node_id@]
    }

    /// The ids of the nodes this node takes input from.
    pub fn connections(&self) -> (r: Vec<String>)
        ensures
            ids(r@) == self.spec_connections(),
    {
        let mut r: Vec<String> = Vec::new();
        push_connection_id(&mut r, &self.samples);
        push_connection_id(&mut r, &self.vae);
        assert(ids(r@) =~= self.spec_connections());
        r
    }
}

/// Struct representing a PreviewImage node.
#[derive(Debug, PartialEq)]
pub struct PreviewImage {
    /// The images to preview.
    pub images: NodeConnection,
}

impl Clone for PreviewImage {
    fn clone(&self) -> (r: Self)
        ensures
            r == *self,
    {
        PreviewImage {
            images: self.images.clone(),
        }
    }
}

impl PreviewImage {
    /// The ids of the nodes this node takes input from, in field order.
    pub open spec fn spec_connections(self) -> Seq<Seq<char>> {
        seq![self.images.node_id@]
    }

    /// The ids of the nodes this node takes input from.
    pub fn connections(&self) -> (r: Vec<String>)
        ensures
            ids(r@) == self.spec_connections(),
    {
        let mut r: Vec<String> = Vec::new();
        push_connection_id(&mut r, &self.images);
        assert(ids(r@) =~= self.spec_connections());
        r
    }
}

/// Struct representing a KSamplerSelect node.
#[derive(Debug, PartialEq)]
pub struct KSamplerSelect {
    /// The sampler name.
    pub sampler_name: Input<String>,
}

impl Clone for KSamplerSelect {
    fn clone(&self) -> (r: Self)
        ensures
            r == *self,
    {
        KSamplerSelect {
            sampler_name: self.sampler_name.clone(),
        }
    }
}

impl KSamplerSelect {
    /// The ids of the nodes this node takes input from, in field order.
    pub open spec fn spec_connections(self) -> Seq<Seq<char>> {
        input_ids(self.sampler_name)
    }

    /// The ids of the nodes this node takes input from.
    pub fn connections(&self) -> (r: Vec<String>)
        ensures
            ids(r@) == self.spec_connections(),
    {
        let mut r: Vec<String> = Vec::new();
        push_input_id(&mut r, &self.sampler_name);
        assert(ids(r@) =~= self.spec_connections());
        r
    }
}

/// Struct representing a SamplerCustom node.
#[derive(Debug, PartialEq)]
pub struct SamplerCustom {
    /// Whether or not to add noise.
    pub add_noise: Input<bool>,
    /// The cfg scale.
    pub cfg: Input<FloatBits>,
    /// The seed.
    pub noise_seed: Input<i64>,
    /// Latent image input connection.
    pub latent_image: NodeConnection,
    /// The model input connection.
    pub model: NodeConnection,
    /// The positive conditioning input connection.
    pub positive: NodeConnection,
    /// The negative conditioning input connection.
    pub negative: NodeConnection,
    /// The sampler input connection.
    pub sampler: NodeConnection,
    /// The sigmas from the scheduler.
    pub sigmas: NodeConnection,
}

impl Clone for SamplerCustom {
    fn clone(&self) -> (r: Self)
        ensures
            r == *self,
    {
        SamplerCustom {
            add_noise: self.add_noise.clone(),
            cfg: self.cfg.clone(),
            noise_seed: self.noise_seed.clone(),
            latent_image: self.latent_image.clone(),
            model: self.model.clone(),
            positive: self.positive.clone(),
            negative: self.negative.clone(),
            sampler: self.sampler.clone(),
            sigmas: self.sigmas.clone(),
        }
    }
}

impl SamplerCustom {
    /// The ids of the nodes this node takes input from, in field order.
    pub open spec fn spec_connections(self) -> Seq<Seq<char>> {
        input_ids(self.add_noise)
            + input_ids(self.cfg)
            + input_ids(self.noise_seed)
            + seq![self.latent_image.node_id@]
            + seq![self.model.node_id@]
            + seq![self.positive.node_id@]
            + seq![self.negative.node_id@]
            + seq![self.sampler.node_id@]
            + seq![self.sigmas.node_id@]
    }

    /// The ids of the nodes this node takes input from.
    pub fn connections(&self) -> (r: Vec<String>)
        ensures
            ids(r@) == self.spec_connections(),
    {
        let mut r: Vec<String> = Vec::new();
        push_input_id(&mut r, &self.add_noise);
        push_input_id(&mut r, &self.cfg);
        push_input_id(&mut r, &self.noise_seed);
        push_connection_id(&mut r, &self.latent_image);
        push_connection_id(&mut r, &self.model);
        push_connection_id(&mut r, &self.positive);
        push_connection_id(&mut r, &self.negative);
        push_connection_id(&mut r, &self.sampler);
        push_connection_id(&mut r, &self.sigmas);
        assert(ids(r@) =~= self.spec_connections());
        r
    }
}

/// Struct representing a SDTurboScheduler node.
#[derive(Debug, PartialEq)]
pub struct SDTurboScheduler {
    /// The number of steps.
    pub steps: Input<u32>,
    /// The model input connection.
    pub model: NodeConnection,
}

impl Clone for SDTurboScheduler {
    fn clone(&self) -> (r: Self)
        ensures
            r == *self,
    {
        SDTurboScheduler {
            steps: self.steps.clone(),
            model: self.model.clone(),
        }
    }
}

impl SDTurboScheduler {
    /// The ids of the nodes this node takes input from, in field order.
    pub open spec fn spec_connections(self) -> Seq<Seq<char>> {
        input_ids(self.steps)
            + seq![self.model.node_id@]
    }

    /// The ids of the nodes this node takes input from.
    pub fn connections(&self) -> (r: Vec<String>)
        ensures
            ids(r@) == self.spec_connections(),
    {
        let mut r: Vec<String> = Vec::new();
        push_input_id(&mut r, &self.steps);
        push_connection_id(&mut r, &self.model);
        assert(ids(r@) =~= self.spec_connections());
        r
    }
}

/// Struct representing an ImageOnlyCheckpointLoader node.
#[derive(Debug, PartialEq)]
pub struct ImageOnlyCheckpointLoader {
    /// The checkpoint name.
    pub ckpt_name: Input<String>,
}

impl Clone for ImageOnlyCheckpointLoader {
    fn clone(&self) -> (r: Self)
        ensures
            r == *self,
    {
        ImageOnlyCheckpointLoader {
            ckpt_name: self.ckpt_name.clone(),
        }
    }
}

impl ImageOnlyCheckpointLoader {
    /// The ids of the nodes this node takes input from, in field order.
    pub open spec fn spec_connections(self) -> Seq<Seq<char>> {
        input_ids(self.ckpt_name)
    }

    /// The ids of the nodes this node takes input from.
    pub fn connections(&self) -> (r: Vec<String>)
        ensures
            ids(r@) == self.spec_connections(),
    {
        let mut r: Vec<String> = Vec::new();
        push_input_id(&mut r, &self.ckpt_name);
        assert(ids(r@) =~= self.spec_connections());
        r
    }
}

/// Struct representing a LoadImage node.
#[derive(Debug, PartialEq)]
pub struct LoadImage {
    /// UI file selection button.
    pub file_to_upload: Input<String>,
    /// The name of the image to load.
    pub image: Input<String>,
}

impl Clone for LoadImage {
    fn clone(&self) -> (r: Self)
        ensures
            r == *self,
    {
        LoadImage {
            file_to_upload: self.file_to_upload.clone(),
            image: self.image.clone(),
        }
    }
}

impl LoadImage {
    /// The ids of the nodes this node takes input from, in field order.
    pub open spec fn spec_connections(self) -> Seq<Seq<char>> {
        input_ids(self.file_to_upload)
            + input_ids(self.image)
    }

    /// The ids of the nodes this node takes input from.
    pub fn connections(&self) -> (r: Vec<String>)
        ensures
            ids(r@) == self.spec_connections(),
    {
        let mut r: Vec<String> = Vec::new();
        push_input_id(&mut r, &self.file_to_upload);
        push_input_id(&mut r, &self.image);
        assert(ids(r@) =~= self.spec_connections());
        r
    }
}

/// Struct representing a SVD_img2vid_Conditioning node.
#[derive(Debug, PartialEq)]
pub struct SVDimg2vidConditioning {
    /// The augmentation level.
    pub augmentation_level: Input<FloatBits>,
    /// The FPS.
    pub fps: Input<u32>,
    /// The video width.
    pub width: Input<u32>,
    /// The video height.
    pub height: Input<u32>,
    /// The motion bucket id.
    pub motion_bucket_id: Input<u32>,
    /// The number of frames.
    pub video_frames: Input<u32>,
    /// The CLIP vision model input connection.
    pub clip_vision: NodeConnection,
    /// The init image input connection.
    pub init_image: NodeConnection,
    /// The VAE model input connection.
    pub vae: NodeConnection,
}

impl Clone for SVDimg2vidConditioning {
    fn clone(&self) -> (r: Self)
        ensures
            r == *self,
    {
        SVDimg2vidConditioning {
            augmentation_level: self.augmentation_level.clone(),
            fps: self.fps.clone(),
            width: self.width.clone(),
            height: self.height.clone(),
            motion_bucket_id: self.motion_bucket_id.clone(),
            video_frames: self.video_frames.clone(),
            clip_vision: self.clip_vision.clone(),
            init_image: self.init_image.clone(),
            vae: self.vae.clone(),
        }
    }
}

impl SVDimg2vidConditioning {
    /// The ids of the nodes this node takes input from, in field order.
    pub open spec fn spec_connections(self) -> Seq<Seq<char>> {
        input_ids(self.augmentation_level)
            + input_ids(self.fps)
            + input_ids(self.width)
            + input_ids(self.height)
            + input_ids(self.motion_bucket_id)
            + input_ids(self.video_frames)
            + seq![self.clip_vision.node_id@]
            + seq![self.init_image.node_id@]
            + seq![self.vae.node_id@]
    }

    /// The ids of the nodes this node takes input from.
    pub fn connections(&self) -> (r: Vec<String>)
        ensures
            ids(r@) == self.spec_connections(),
    {
        let mut r: Vec<String> = Vec::new();
        push_input_id(&mut r, &self.augmentation_level);
        push_input_id(&mut r, &self.fps);
        push_input_id(&mut r, &self.width);
        push_input_id(&mut r, &self.height);
        push_input_id(&mut r, &self.motion_bucket_id);
        push_input_id(&mut r, &self.video_frames);
        push_connection_id(&mut r, &self.clip_vision);
        push_connection_id(&mut r, &self.init_image);
        push_connection_id(&mut r, &self.vae);
        assert(ids(r@) =~= self.spec_connections());
        r
    }
}

/// Struct representing a VideoLinearCFGGuidance node.
#[derive(Debug, PartialEq)]
pub struct VideoLinearCFGGuidance {
    /// The minimum cfg scale.
    pub min_cfg: Input<FloatBits>,
    /// The model input connection.
    pub model: NodeConnection,
}

impl Clone for VideoLinearCFGGuidance {
    fn clone(&self) -> (r: Self)
        ensures
            r == *self,
    {
        VideoLinearCFGGuidance {
            min_cfg: self.min_cfg.clone(),
            model: self.model.clone(),
        }
    }
}

impl VideoLinearCFGGuidance {
    /// The ids of the nodes this node takes input from, in field order.
    pub open spec fn spec_connections(self) -> Seq<Seq<char>> {
        input_ids(self.min_cfg)
            + seq![self.model.node_id@]
    }

    /// The ids of the nodes this node takes input from.
    pub fn connections(&self) -> (r: Vec<String>)
        ensures
            ids(r@) == self.spec_connections(),
    {
        let mut r: Vec<String> = Vec::new();
        push_input_id(&mut r, &self.min_cfg);
        push_connection_id(&mut r, &self.model);
        assert(ids(r@) =~= self.spec_connections());
        r
    }
}

/// Struct representing a SaveAnimatedWEBP node.
#[derive(Debug, PartialEq)]
pub struct SaveAnimatedWEBP {
    /// The filename prefix.
    pub filename_prefix: Input<String>,
    /// The FPS.
    pub fps: Input<u32>,
    /// Whether or not to losslessly encode the video.
    pub lossless: Input<bool>,
    /// The encoding method.
    pub method: Input<String>,
    /// The quality.
    pub quality: Input<u32>,
    /// Input images connection.
    pub images: NodeConnection,
}

impl Clone for SaveAnimatedWEBP {
    fn clone(&self) -> (r: Self)
        ensures
            r == *self,
    {
        SaveAnimatedWEBP {
            filename_prefix: self.filename_prefix.clone(),
            fps: self.fps.clone(),
            lossless: self.lossless.clone(),
            method: self.method.clone(),
            quality: self.quality.clone(),
            images: self.images.clone(),
        }
    }
}

impl SaveAnimatedWEBP {
    /// The ids of the nodes this node takes input from, in field order.
    pub open spec fn spec_connections(self) -> Seq<Seq<char>> {
        input_ids(self.filename_prefix)
            + input_ids(self.fps)
            + input_ids(self.lossless)
            + input_ids(self.method)
            + input_ids(self.quality)
            + seq![self.images.node_id@]
    }

    /// The ids of the nodes this node takes input from.
    pub fn connections(&self) -> (r: Vec<String>)
        ensures
            ids(r@) == self.spec_connections(),
    {
        let mut r: Vec<String> = Vec::new();
        push_input_id(&mut r, &self.filename_prefix);
        push_input_id(&mut r, &self.fps);
        push_input_id(&mut r, &self.lossless);
        push_input_id(&mut r, &self.method);
        push_input_id(&mut r, &self.quality);
        push_connection_id(&mut r, &self.images);
        assert(ids(r@) =~= self.spec_connections());
        r
    }
}

/// Struct representing a LoraLoader node.
#[derive(Debug, PartialEq)]
pub struct LoraLoader {
    /// The name of the LORA model.
    pub lora_name: Input<String>,
    /// The model strength.
    pub strength_model: Input<FloatBits>,
    /// The CLIP strength.
    pub strength_clip: Input<FloatBits>,
    /// The model input connection.
    pub model: NodeConnection,
    /// The CLIP input connection.
    pub clip: NodeConnection,
}

impl Clone for LoraLoader {
    fn clone(&self) -> (r: Self)
        ensures
            r == *self,
    {
        LoraLoader {
            lora_name: self.lora_name.clone(),
            strength_model: self.strength_model.clone(),
            strength_clip: self.strength_clip.clone(),
            model: self.model.clone(),
            clip: self.clip.clone(),
        }
    }
}

impl LoraLoader {
    /// The ids of the nodes this node takes input from, in field order.
    pub open spec fn spec_connections(self) -> Seq<Seq<char>> {
        input_ids(self.lora_name)
            + input_ids(self.strength_model)
            + input_ids(self.strength_clip)
            + seq![self.model.node_id@]
            + seq![self.clip.node_id@]
    }

    /// The ids of the nodes this node takes input from.
    pub fn connections(&self) -> (r: Vec<String>)
        ensures
            ids(r@) == self.spec_connections(),
    {
        let mut r: Vec<String> = Vec::new();
        push_input_id(&mut r, &self.lora_name);
        push_input_id(&mut r, &self.strength_model);
        push_input_id(&mut r, &self.strength_clip);
        push_connection_id(&mut r, &self.model);
        push_connection_id(&mut r, &self.clip);
        assert(ids(r@) =~= self.spec_connections());
        r
    }
}

/// Struct representing a ModelSamplingDiscrete node.
#[derive(Debug, PartialEq)]
pub struct ModelSamplingDiscrete {
    /// Sampling to use.
    pub sampling: Input<String>,
    /// Use ZSNR.
    pub zsnr: Input<bool>,
    /// The model input connection.
    pub model: NodeConnection,
}

impl Clone for ModelSamplingDiscrete {
    fn clone(&self) -> (r: Self)
        ensures
            r == *self,
    {
        ModelSamplingDiscrete {
            sampling: self.sampling.clone(),
            zsnr: self.zsnr.clone(),
            model: self.model.clone(),
        }
    }
}

impl ModelSamplingDiscrete {
    /// The ids of the nodes this node takes input from, in field order.
    pub open spec fn spec_connections(self) -> Seq<Seq<char>> {
        input_ids(self.sampling)
            + input_ids(self.zsnr)
            + seq![self.model.node_id@]
    }

    /// The ids of the nodes this node takes input from.
    pub fn connections(&self) -> (r: Vec<String>)
        ensures
            ids(r@) == self.spec_connections(),
    {
        let mut r: Vec<String> = Vec::new();
        push_input_id(&mut r, &self.sampling);
        push_input_id(&mut r, &self.zsnr);
        push_connection_id(&mut r, &self.model);
        assert(ids(r@) =~= self.spec_connections());
        r
    }
}

/// Struct representing a SaveImage node.
#[derive(Debug, PartialEq)]
pub struct SaveImage {
    /// The filename prefix.
    pub filename_prefix: Input<String>,
    /// The image input connection.
    pub images: NodeConnection,
}

impl Clone for SaveImage {
    fn clone(&self) -> (r: Self)
        ensures
            r == *self,
    {
        SaveImage {
            filename_prefix: self.filename_prefix.clone(),
            images: self.images.clone(),
        }
    }
}

impl SaveImage {
    /// The ids of the nodes this node takes input from, in field order.
    pub open spec fn spec_connections(self) -> Seq<Seq<char>> {
        input_ids(self.filename_prefix)
            + seq![self.images.node_id@]
    }

    /// The ids of the nodes this node takes input from.
    pub fn connections(&self) -> (r: Vec<String>)
        ensures
            ids(r@) == self.spec_connections(),
    {
        let mut r: Vec<String> = Vec::new();
        push_input_id(&mut r, &self.filename_prefix);
        push_connection_id(&mut r, &self.images);
        assert(ids(r@) =~= self.spec_connections());
        r
    }
}

/// The known node types of a workflow.
#[derive(Debug, PartialEq)]
pub enum Node {
    /// Variant holding a KSampler node.
    KSampler(KSampler),
    /// Variant holding a CLIPTextEncode node.
    CLIPTextEncode(CLIPTextEncode),
    /// Variant holding an EmptyLatentImage node.
    EmptyLatentImage(EmptyLatentImage),
    /// Variant holding a CheckpointLoaderSimple node.
    CheckpointLoaderSimple(CheckpointLoaderSimple),
    /// Variant holding a VAELoader node.
    VAELoader(VAELoader),
    /// Variant holding a VAEDecode node.
    VAEDecode(VAEDecode),
    /// Variant holding a PreviewImage node.
    PreviewImage(PreviewImage),
    /// Variant holding a KSamplerSelect node.
    KSamplerSelect(KSamplerSelect),
    /// Variant holding a SamplerCustom node.
    SamplerCustom(SamplerCustom),
    /// Variant holding a SDTurboScheduler node.
    SDTurboScheduler(SDTurboScheduler),
    /// Variant holding an ImageOnlyCheckpointLoader node.
    ImageOnlyCheckpointLoader(ImageOnlyCheckpointLoader),
    /// Variant holding a LoadImage node.
    LoadImage(LoadImage),
    /// Variant holding a SVD_img2vid_Conditioning node.
    SVDimg2vidConditioning(SVDimg2vidConditioning),
    /// Variant holding a VideoLinearCFGGuidance node.
    VideoLinearCFGGuidance(VideoLinearCFGGuidance),
    /// Variant holding a SaveAnimatedWEBP node.
    SaveAnimatedWEBP(SaveAnimatedWEBP),
    /// Variant holding a LoraLoader node.
    LoraLoader(LoraLoader),
    /// Variant holding a ModelSamplingDiscrete node.
    ModelSamplingDiscrete(ModelSamplingDiscrete),
    /// Variant holding a SaveImage node.
    SaveImage(SaveImage),
}

/// The kind of a workflow node, used to look nodes up by type.
#[derive(Debug, Clone, Copy, PartialEq, Eq, Structural)]
pub enum NodeKind {
    /// The kind of a KSampler node.
    KSampler,
    /// The kind of a CLIPTextEncode node.
    CLIPTextEncode,
    /// The kind of an EmptyLatentImage node.
    EmptyLatentImage,
    /// The kind of a CheckpointLoaderSimple node.
    CheckpointLoaderSimple,
    /// The kind of a VAELoader node.
    VAELoader,
    /// The kind of a VAEDecode node.
    VAEDecode,
    /// The kind of a PreviewImage node.
    PreviewImage,
    /// The kind of a KSamplerSelect node.
    KSamplerSelect,
    /// The kind of a SamplerCustom node.
    SamplerCustom,
    /// The kind of a SDTurboScheduler node.
    SDTurboScheduler,
    /// The kind of an ImageOnlyCheckpointLoader node.
    ImageOnlyCheckpointLoader,
    /// The kind of a LoadImage node.
    LoadImage,
    /// The kind of a SVD_img2vid_Conditioning node.
    SVDimg2vidConditioning,
    /// The kind of a VideoLinearCFGGuidance node.
    VideoLinearCFGGuidance,
    /// The kind of a SaveAnimatedWEBP node.
    SaveAnimatedWEBP,
    /// The kind of a LoraLoader node.
    LoraLoader,
    /// The kind of a ModelSamplingDiscrete node.
    ModelSamplingDiscrete,
    /// The kind of a SaveImage node.
    SaveImage,
    /// The kind of a node of an unknown class.
    Generic,
}

impl Clone for Node {
    fn clone(&self) -> (r: Self)
        ensures
            r == *self,
    {
        match self {
            Node::KSampler(n) => Node::KSampler(n.clone()),
            Node::CLIPTextEncode(n) => Node::CLIPTextEncode(n.clone()),
            Node::EmptyLatentImage(n) => Node::EmptyLatentImage(n.clone()),
            Node::CheckpointLoaderSimple(n) => Node::CheckpointLoaderSimple(n.clone()),
            Node::VAELoader(n) => Node::VAELoader(n.clone()),
            Node::VAEDecode(n) => Node::VAEDecode(n.clone()),
            Node::PreviewImage(n) => Node::PreviewImage(n.clone()),
            Node::KSamplerSelect(n) => Node::KSamplerSelect(n.clone()),
            Node::SamplerCustom(n) => Node::SamplerCustom(n.clone()),
            Node::SDTurboScheduler(n) => Node::SDTurboScheduler(n.clone()),
            Node::ImageOnlyCheckpointLoader(n) => Node::ImageOnlyCheckpointLoader(n.clone()),
            Node::LoadImage(n) => Node::LoadImage(n.clone()),
            Node::SVDimg2vidConditioning(n) => Node::SVDimg2vidConditioning(n.clone()),
            Node::VideoLinearCFGGuidance(n) => Node::VideoLinearCFGGuidance(n.clone()),
            Node::SaveAnimatedWEBP(n) => Node::SaveAnimatedWEBP(n.clone()),
            Node::LoraLoader(n) => Node::LoraLoader(n.clone()),
            Node::ModelSamplingDiscrete(n) => Node::ModelSamplingDiscrete(n.clone()),
            Node::SaveImage(n) => Node::SaveImage(n.clone()),
        }
    }
}

impl Node {
    /// The kind of this node.
    pub open spec fn spec_kind(self) -> NodeKind {
        match self {
            Node::KSampler(_) => NodeKind::KSampler,
            Node::CLIPTextEncode(_) => NodeKind::CLIPTextEncode,
            Node::EmptyLatentImage(_) => NodeKind::EmptyLatentImage,
            Node::CheckpointLoaderSimple(_) => NodeKind::CheckpointLoaderSimple,
            Node::VAELoader(_) => NodeKind::VAELoader,
            Node::VAEDecode(_) => NodeKind::VAEDecode,
            Node::PreviewImage(_) => NodeKind::PreviewImage,
            Node::KSamplerSelect(_) => NodeKind::KSamplerSelect,
            Node::SamplerCustom(_) => NodeKind::SamplerCustom,
            Node::SDTurboScheduler(_) => NodeKind::SDTurboScheduler,
            Node::ImageOnlyCheckpointLoader(_) => NodeKind::ImageOnlyCheckpointLoader,
            Node::LoadImage(_) => NodeKind::LoadImage,
            Node::SVDimg2vidConditioning(_) => NodeKind::SVDimg2vidConditioning,
            Node::VideoLinearCFGGuidance(_) => NodeKind::VideoLinearCFGGuidance,
            Node::SaveAnimatedWEBP(_) => NodeKind::SaveAnimatedWEBP,
            Node::LoraLoader(_) => NodeKind::LoraLoader,
            Node::ModelSamplingDiscrete(_) => NodeKind::ModelSamplingDiscrete,
            Node::SaveImage(_) => NodeKind::SaveImage,
        }
    }

    /// The kind of this node.
    pub fn kind(&self) -> (k: NodeKind)
        ensures
            k == self.spec_kind(),
    {
        match self {
            Node::KSampler(_) => NodeKind::KSampler,
            Node::CLIPTextEncode(_) => NodeKind::CLIPTextEncode,
            Node::EmptyLatentImage(_) => NodeKind::EmptyLatentImage,
            Node::CheckpointLoaderSimple(_) => NodeKind::CheckpointLoaderSimple,
            Node::VAELoader(_) => NodeKind::VAELoader,
            Node::VAEDecode(_) => NodeKind::VAEDecode,
            Node::PreviewImage(_) => NodeKind::PreviewImage,
            Node::KSamplerSelect(_) => NodeKind::KSamplerSelect,
            Node::SamplerCustom(_) => NodeKind::SamplerCustom,
            Node::SDTurboScheduler(_) => NodeKind::SDTurboScheduler,
            Node::ImageOnlyCheckpointLoader(_) => NodeKind::ImageOnlyCheckpointLoader,
            Node::LoadImage(_) => NodeKind::LoadImage,
            Node::SVDimg2vidConditioning(_) => NodeKind::SVDimg2vidConditioning,
            Node::VideoLinearCFGGuidance(_) => NodeKind::VideoLinearCFGGuidance,
            Node::SaveAnimatedWEBP(_) => NodeKind::SaveAnimatedWEBP,
            Node::LoraLoader(_) => NodeKind::LoraLoader,
            Node::ModelSamplingDiscrete(_) => NodeKind::ModelSamplingDiscrete,
            Node::SaveImage(_) => NodeKind::SaveImage,
        }
    }

    /// The ids of the nodes this node takes input from.
    pub open spec fn spec_connections(self) -> Seq<Seq<char>> {
        match self {
            Node::KSampler(n) => n.spec_connections(),
            Node::CLIPTextEncode(n) => n.spec_connections(),
            Node::EmptyLatentImage(n) => n.spec_connections(),
            Node::CheckpointLoaderSimple(n) => n.spec_connections(),
            Node::VAELoader(n) => n.spec_connections(),
            Node::VAEDecode(n) => n.spec_connections(),
            Node::PreviewImage(n) => n.spec_connections(),
            Node::KSamplerSelect(n) => n.spec_connections(),
            Node::SamplerCustom(n) => n.spec_connections(),
            Node::SDTurboScheduler(n) => n.spec_connections(),
            Node::ImageOnlyCheckpointLoader(n) => n.spec_connections(),
            Node::LoadImage(n) => n.spec_connections(),
            Node::SVDimg2vidConditioning(n) => n.spec_connections(),
            Node::VideoLinearCFGGuidance(n) => n.spec_connections(),
            Node::SaveAnimatedWEBP(n) => n.spec_connections(),
            Node::LoraLoader(n) => n.spec_connections(),
            Node::ModelSamplingDiscrete(n) => n.spec_connections(),
            Node::SaveImage(n) => n.spec_connections(),
        }
    }

    /// The ids of the nodes this node takes input from.
    pub fn connections(&self) -> (r: Vec<String>)
        ensures
            ids(r@) == self.spec_connections(),
    {
        match self {
            Node::KSampler(n) => n.connections(),
            Node::CLIPTextEncode(n) => n.connections(),
            Node::EmptyLatentImage(n) => n.connections(),
            Node::CheckpointLoaderSimple(n) => n.connections(),
            Node::VAELoader(n) => n.connections(),
            Node::VAEDecode(n) => n.connections(),
            Node::PreviewImage(n) => n.connections(),
            Node::KSamplerSelect(n) => n.connections(),
            Node::SamplerCustom(n) => n.connections(),
            Node::SDTurboScheduler(n) => n.connections(),
            Node::ImageOnlyCheckpointLoader(n) => n.connections(),
            Node::LoadImage(n) => n.connections(),
            Node::SVDimg2vidConditioning(n) => n.connections(),
            Node::VideoLinearCFGGuidance(n) => n.connections(),
            Node::SaveAnimatedWEBP(n) => n.connections(),
            Node::LoraLoader(n) => n.connections(),
            Node::ModelSamplingDiscrete(n) => n.connections(),
            Node::SaveImage(n) => n.connections(),
        }
    }
}

/// The abstract value of a workflow node: a known node as it is, or the
/// class type and inputs of a node of an unknown class.
pub enum NodeView {
    /// A node of a known class.
    Known(Node),
    /// A node of an unknown class: its class type and its named inputs.
    Generic(Seq<char>, Seq<(String, GenericValue)>),
}

impl NodeView {
    /// The kind of this node; nodes of unknown classes are `Generic`.
    pub open spec fn kind(self) -> NodeKind {
        match self {
            NodeView::Known(n) => n.spec_kind(),
            NodeView::Generic(..) => NodeKind::Generic,
        }
    }

    /// The ids of the nodes this node takes input from.
    pub open spec fn connections(self) -> Seq<Seq<char>> {
        match self {
            NodeView::Known(n) => n.spec_connections(),
            NodeView::Generic(_, inputs) => generic_inputs_ids(inputs, inputs.len() as int),
        }
    }
}

/// Enum capturing all possible node types.
#[derive(Debug, PartialEq)]
pub enum NodeOrUnknown {
    /// Enum variant representing a known node.
    Node(Node),
    /// Variant capturing unknown nodes.
    GenericNode(GenericNode),
}

impl View for NodeOrUnknown {
    type V = NodeView;

    open spec fn view(&self) -> NodeView {
        match self {
            NodeOrUnknown::Node(n) => NodeView::Known(*n),
            NodeOrUnknown::GenericNode(g) => NodeView::Generic(g.class_type@, g.inputs@),
        }
    }
}

impl Clone for NodeOrUnknown {
    fn clone(&self) -> (r: Self)
        ensures
            r@ == self@,
    {
        match self {
            NodeOrUnknown::Node(n) => NodeOrUnknown::Node(n.clone()),
            NodeOrUnknown::GenericNode(n) => NodeOrUnknown::GenericNode(n.clone()),
        }
    }
}

impl NodeOrUnknown {
    /// The kind of this node; nodes of unknown classes are `Generic`.
    pub fn kind(&self) -> (k: NodeKind)
        ensures
            k == self@.kind(),
    {
        match self {
            NodeOrUnknown::Node(n) => n.kind(),
            NodeOrUnknown::GenericNode(_) => NodeKind::Generic,
        }
    }

    /// The ids of the nodes this node takes input from.
    pub fn connections(&self) -> (r: Vec<String>)
        ensures
            ids(r@) == self@.connections(),
    {
        match self {
            NodeOrUnknown::Node(n) => n.connections(),
            NodeOrUnknown::GenericNode(n) => n.connections(),
        }
    }
}

} // verus!
