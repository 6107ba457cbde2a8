use vstd::prelude::*;

use crate::text::ids;
use crate::workflow::graph::{preorder, walk_depth};
use crate::workflow::node::{Input, Node, NodeOrUnknown, NodeView};
use crate::workflow::prompt::{contains_id, node, Prompt, WorkflowView};

verus! {

/// Information about the generated image.
#[derive(Debug, PartialEq)]
pub struct ImageInfo {
    /// The prompt used to generate the image.
    pub prompt: Option<String>,
    /// The negative prompt used to generate the image.
    pub negative_prompt: Option<String>,
    /// The model used to generate the image.
    pub model: Option<String>,
    /// The width of the image.
    pub width: Option<u32>,
    /// The height of the image.
    pub height: Option<u32>,
    /// The seed used to generate the image.
    pub seed: Option<i64>,
}

impl Clone for ImageInfo {
    fn clone(&self) -> (r: Self)
        ensures
            r == *self,
    {
        ImageInfo {
            prompt: self.prompt.clone(),
            negative_prompt: self.negative_prompt.clone(),
            model: self.model.clone(),
            width: self.width,
            height: self.height,
            seed: self.seed,
        }
    }
}

/// The information known before any node is visited: none.
pub open spec fn empty_info() -> ImageInfo {
    ImageInfo {
        prompt: None,
        negative_prompt: None,
        model: None,
        width: None,
        height: None,
        seed: None,
    }
}

impl Default for ImageInfo {
    fn default() -> (r: Self)
        ensures
            r == empty_info(),
    {
        ImageInfo {
            prompt: None,
            negative_prompt: None,
            model: None,
            width: None,
            height: None,
            seed: None,
        }
    }
}

/// The value of a widget input, or `None` for a connection.
pub open spec fn input_value<T>(i: Input<T>) -> Option<T> {
    match i {
        Input::Value(v) => Some(v),
        Input::NodeConnection(_) => None,
    }
}

/// The information after visiting node `n`: a checkpoint loader sets the
/// model, an empty latent image the size, a sampler the seed, and a text
/// encoder the prompt, or the negative prompt once the prompt is set.
/// Each of these overwrites what was there, with `None` when the input is
/// a connection.
pub open spec fn visit_node(info: ImageInfo, n: NodeView) -> ImageInfo {
    match n {
        NodeView::Known(Node::CheckpointLoaderSimple(x)) => ImageInfo {
            model: input_value(x.ckpt_name),
            ..info
        },
        NodeView::Known(Node::ImageOnlyCheckpointLoader(x)) => ImageInfo {
            model: input_value(x.ckpt_name),
            ..info
        },
        NodeView::Known(Node::EmptyLatentImage(x)) => ImageInfo {
            width: input_value(x.width),
            height: input_value(x.height),
            ..info
        },
        NodeView::Known(Node::KSampler(x)) => ImageInfo { seed: input_value(x.seed), ..info },
        NodeView::Known(Node::SamplerCustom(x)) => ImageInfo {
            seed: input_value(x.noise_seed),
            ..info
        },
        NodeView::Known(Node::CLIPTextEncode(x)) => if info.prompt is None {
            ImageInfo { prompt: input_value(x.text), ..info }
        } else if info.negative_prompt is None {
            ImageInfo { negative_prompt: input_value(x.text), ..info }
        } else {
            info
        },
        _ => info,
    }
}

/// The information after visiting the nodes of the first `k` ids of
/// `order`, in order.
pub open spec fn visit_all(w: WorkflowView, order: Seq<Seq<char>>, k: int) -> ImageInfo
    decreases k,
{
    if k <= 0 {
        empty_info()
    } else {
        let prev = visit_all(w, order, k - 1);
        match node(w, order[k - 1]) {
            Some(n) => visit_node(prev, n),
            None => prev,
        }
    }
}

/// The information gathered by walking the workflow from `output`.
pub open spec fn image_info(w: WorkflowView, output: Seq<char>) -> ImageInfo {
    let order = preorder(w, output, walk_depth(w));
    visit_all(w, order, order.len() as int)
}

/// Why image information could not be gathered.
#[derive(Debug, PartialEq)]
pub enum ImageInfoError {
    /// The output node is not in the workflow.
    OutputNodeNotFound(String),
}

fn input_value_cloned(i: &Input<String>) -> (r: Option<String>)
    ensures
        r == input_value(*i),
{
    match i {
        Input::Value(v) => Some(v.clone()),
        Input::NodeConnection(_) => None,
    }
}

fn input_value_copied<T: Copy>(i: &Input<T>) -> (r: Option<T>)
    ensures
        r == input_value(*i),
{
    match i {
        Input::Value(v) => Some(*v),
        Input::NodeConnection(_) => None,
    }
}

impl ImageInfo {
    /// Updates the information with what node `n` holds (see `visit_node`).
    pub fn visit(&mut self, n: &NodeOrUnknown)
        ensures
            *final(self) == visit_node(*old(self), n@),
    {
        match n {
            NodeOrUnknown::Node(Node::CheckpointLoaderSimple(x)) => {
                self.model = input_value_cloned(&x.ckpt_name);
            },
            NodeOrUnknown::Node(Node::ImageOnlyCheckpointLoader(x)) => {
                self.model = input_value_cloned(&x.ckpt_name);
            },
            NodeOrUnknown::Node(Node::EmptyLatentImage(x)) => {
                self.width = input_value_copied(&x.width);
                self.height = input_value_copied(&x.height);
            },
            NodeOrUnknown::Node(Node::KSampler(x)) => {
                self.seed = input_value_copied(&x.seed);
            },
            NodeOrUnknown::Node(Node::SamplerCustom(x)) => {
                self.seed = input_value_copied(&x.noise_seed);
            },
            NodeOrUnknown::Node(Node::CLIPTextEncode(x)) => {
                if self.prompt.is_none() {
                    self.prompt = input_value_cloned(&x.text);
                } else if self.negative_prompt.is_none() {
                    self.negative_prompt = input_value_cloned(&x.text);
                }
            },
            _ => {},
        }
    }

    /// Returns the information about the image produced by `output_node`,
    /// gathered by walking the workflow from that node.
    pub fn new_from_prompt(prompt: &Prompt, output_node: &str) -> (r: Result<ImageInfo, ImageInfoError>)
        ensures
            contains_id(prompt@, output_node@) <==> r is Ok,
            r matches Ok(info) ==> info == image_info(prompt@, output_node@),
            r matches Err(ImageInfoError::OutputNodeNotFound(s)) ==> s@ == output_node@,
    {
        if prompt.get_node_by_id(output_node).is_none() {
            return Err(ImageInfoError::OutputNodeNotFound(output_node.to_owned()));
        }
        let order = prompt.walk(output_node);
        let ghost o = ids(order@);
        let mut info = ImageInfo::default();
        let mut i: usize = 0;
        while i < order.len()
            invariant
                i <= order.len(),
                o == ids(order@),
                o == preorder(prompt@, output_node@, walk_depth(prompt@)),
                info == visit_all(prompt@, o, i as int),
            decreases order.len() - i,
        {
            assert(o[i as int] == order@[i as int]@);
            match prompt.get_node_by_id(order[i].as_str()) {
                Some(n) => info.visit(n),
                None => {},
            }
            i += 1;
        }
        Ok(info)
    }
}

} // verus!
