use vstd::prelude::*;

use crate::comfy::models::{
    ExecutionError, ExecutionInterrupted, Image, NodeOutputOrUnknown, Outputs, Update,
};
use crate::text::{ids, str_eq};

verus! {

/// What one update of the websocket stream calls for, for the prompt being
/// followed.
#[derive(Debug, PartialEq)]
pub enum Step {
    /// The update concerns another prompt, or nothing is to be done.
    Skip,
    /// The prompt has finished: its outputs are to be read from the history
    /// entry of the prompt with this id.
    FetchHistory(u128),
    /// A node of the prompt has executed and produced these images.
    Executed(String, Vec<Image>),
    /// The execution of the prompt was interrupted.
    Interrupted(ExecutionInterrupted),
    /// The execution of the prompt failed.
    Failed(ExecutionError),
}

/// Decides what an update means for the prompt with id `target`: an
/// executing update without a node marks the end of the prompt, an executed
/// update brings a node's images, and interruptions and errors end the
/// execution; updates of other prompts, and all other updates, are skipped.
pub fn filter_update(update: Update, target: u128) -> (r: Step)
    ensures
        match update {
            Update::Executing(d) => if d.node is None && d.prompt_id == Some(target) {
                r == Step::FetchHistory(target)
            } else {
                r is Skip
            },
            Update::Executed(d) => if d.prompt_id == target {
                r == Step::Executed(d.node, d.output.images)
            } else {
                r is Skip
            },
            Update::ExecutionInterrupted(d) => if d.prompt_id == target {
                r == Step::Interrupted(d)
            } else {
                r is Skip
            },
            Update::ExecutionError(d) => if d.execution_status.prompt_id == target {
                r == Step::Failed(d)
            } else {
                r is Skip
            },
            _ => r is Skip,
        },
{
    match update {
        Update::Executing(data) => {
            if data.node.is_none() {
                if let Some(prompt_id) = data.prompt_id {
                    if prompt_id != target {
                        return Step::Skip;
                    }
                    return Step::FetchHistory(prompt_id);
                }
            }
            Step::Skip
        },
        Update::Executed(data) => {
            if data.prompt_id != target {
                return Step::Skip;
            }
            Step::Executed(data.node, data.output.images)
        },
        Update::ExecutionInterrupted(data) => {
            if data.prompt_id != target {
                return Step::Skip;
            }
            Step::Interrupted(data)
        },
        Update::ExecutionError(data) => {
            if data.execution_status.prompt_id != target {
                return Step::Skip;
            }
            Step::Failed(data)
        },
        _ => Step::Skip,
    }
}

/// The abstract value of a list of node outputs: node ids with their images.
pub type NodeImages = Seq<(String, Seq<Image>)>;

/// The image outputs among the first `n` outputs of a task, in order;
/// outputs of other kinds are left out.
pub open spec fn image_outputs(nodes: Seq<(String, NodeOutputOrUnknown)>, n: int) -> NodeImages
    decreases n,
{
    if n <= 0 {
        seq![]
    } else {
        match nodes[n - 1].1 {
            NodeOutputOrUnknown::NodeOutput(o) => image_outputs(nodes, n - 1).push(
                (nodes[n - 1].0, o.images@),
            ),
            NodeOutputOrUnknown::Unknown(_) => image_outputs(nodes, n - 1),
        }
    }
}

/// The view of a list of node outputs.
pub open spec fn node_images_view(v: Seq<(String, Vec<Image>)>) -> NodeImages {
    v.map_values(|p: (String, Vec<Image>)| (p.0, p.1@))
}

/// Copies a list of images.
fn clone_images(images: &Vec<Image>) -> (r: Vec<Image>)
    ensures
        r@ == images@,
{
    let mut r: Vec<Image> = Vec::new();
    let mut i: usize = 0;
    while i < images.len()
        invariant
            i <= images.len(),
            r@ == images@.take(i as int),
        decreases images.len() - i,
    {
        r.push(images[i].clone());
        i += 1;
        assert(r@ =~= images@.take(i as int));
    }
    assert(r@ =~= images@);
    r
}

/// The image outputs of a finished task, by node, in the order the task
/// lists them.
pub fn finished_outputs(outputs: &Outputs) -> (r: Vec<(String, Vec<Image>)>)
    ensures
        node_images_view(r@) == image_outputs(outputs.nodes@, outputs.nodes@.len() as int),
{
    let mut r: Vec<(String, Vec<Image>)> = Vec::new();
    let mut i: usize = 0;
    while i < outputs.nodes.len()
        invariant
            i <= outputs.nodes.len(),
            node_images_view(r@) == image_outputs(outputs.nodes@, i as int),
        decreases outputs.nodes.len() - i,
    {
        let ghost before = r@;
        match &outputs.nodes[i].1 {
            NodeOutputOrUnknown::NodeOutput(o) => {
                r.push((outputs.nodes[i].0.clone(), clone_images(&o.images)));
                assert(node_images_view(r@) =~= node_images_view(before).push(
                    (outputs.nodes@[i as int].0, o.images@),
                ));
            },
            NodeOutputOrUnknown::Unknown(_) => {},
        }
        i += 1;
    }
    r
}

/// The images of node `node`, each paired with the node's id.
pub open spec fn node_pairs(node: String, images: Seq<Image>) -> Seq<(String, Image)> {
    images.map_values(|i: Image| (node, i))
}

/// The images to fetch when a prompt finishes, for the first `n` of its
/// outputs: those of nodes not already reported as executed, in order.
pub open spec fn finished_fetches(executed: Seq<Seq<char>>, outs: NodeImages, n: int) -> Seq<
    (String, Image),
>
    decreases n,
{
    if n <= 0 {
        seq![]
    } else if executed.contains(outs[n - 1].0@) {
        finished_fetches(executed, outs, n - 1)
    } else {
        finished_fetches(executed, outs, n - 1) + node_pairs(outs[n - 1].0, outs[n - 1].1)
    }
}

/// The progress of the execution of one prompt: the nodes whose images have
/// been reported, and whether the prompt has finished.
#[derive(Debug, PartialEq)]
pub struct Execution {
    /// The ids of the nodes reported as executed.
    pub executed: Vec<String>,
    /// Whether the prompt has finished.
    pub finished: bool,
}

/// Whether `s` is one of the strings of `v`.
fn contains_str(v: &Vec<String>, s: &str) -> (r: bool)
    ensures
        r == ids(v@).contains(s@),
{
    let mut i: usize = 0;
    while i < v.len()
        invariant
            i <= v.len(),
            forall|j: int| 0 <= j < i ==> ids(v@)[j] != s@,
        decreases v.len() - i,
    {
        if str_eq(v[i].as_str(), s) {
            assert(ids(v@)[i as int] == s@);
            return true;
        }
        i += 1;
    }
    false
}

/// Pairs each image of `images` with the node id `node`.
fn pair_images(node: &String, images: &Vec<Image>, out: &mut Vec<(String, Image)>)
    ensures
        final(out)@ == old(out)@ + node_pairs(*node, images@),
{
    let ghost start = out@;
    let mut i: usize = 0;
    while i < images.len()
        invariant
            i <= images.len(),
            out@ == start + node_pairs(*node, images@.take(i as int)),
        decreases images.len() - i,
    {
        out.push((node.clone(), images[i].clone()));
        i += 1;
        assert(out@ =~= start + node_pairs(*node, images@.take(i as int)));
    }
    assert(images@.take(i as int) =~= images@);
}

impl Execution {
    /// The state before any update.
    pub fn new() -> (r: Self)
        ensures
            r.executed@ == Seq::<String>::empty(),
            !r.finished,
    {
        Execution { executed: Vec::new(), finished: false }
    }

    /// Records that node `node` executed with `images`; returns the images
    /// to fetch, each with the node's id.
    pub fn on_executed(&mut self, node: String, images: Vec<Image>) -> (r: Vec<(String, Image)>)
        ensures
            final(self).executed@ == old(self).executed@.push(node),
            final(self).finished == old(self).finished,
            r@ == node_pairs(node, images@),
    {
        let mut r: Vec<(String, Image)> = Vec::new();
        pair_images(&node, &images, &mut r);
        assert(r@ =~= node_pairs(node, images@));
        self.executed.push(node);
        r
    }

    /// Records that the prompt finished with `outputs`; returns the images
    /// to fetch, each with its node's id: those of the nodes that were not
    /// reported as executed before, in order.
    pub fn on_finished(&mut self, outputs: &Vec<(String, Vec<Image>)>) -> (r: Vec<(String, Image)>)
        ensures
            final(self).executed@ == old(self).executed@,
            final(self).finished,
            r@ == finished_fetches(
                ids(old(self).executed@),
                node_images_view(outputs@),
                outputs@.len() as int,
            ),
            forall|k: int| 0 <= k < r@.len() ==> !ids(old(self).executed@).contains(#[trigger] r@[k].0@),
    {
        let ghost outs = node_images_view(outputs@);
        let ghost ex = ids(self.executed@);
        let mut r: Vec<(String, Image)> = Vec::new();
        let mut i: usize = 0;
        while i < outputs.len()
            invariant
                i <= outputs.len(),
                outs == node_images_view(outputs@),
                ex == ids(self.executed@),
                r@ == finished_fetches(ex, outs, i as int),
                forall|k: int| 0 <= k < r@.len() ==> !ex.contains(#[trigger] r@[k].0@),
            decreases outputs.len() - i,
        {
            let (node, images) = &outputs[i];
            assert(outs[i as int] == (*node, images@));
            if !contains_str(&self.executed, node.as_str()) {
                let ghost before = r@;
                pair_images(node, images, &mut r);
                assert forall|k: int| 0 <= k < r@.len() implies !ex.contains(#[trigger] r@[k].0@) by {
                    if k >= before.len() {
                        assert(r@[k] == node_pairs(*node, images@)[k - before.len()]);
                    }
                }
            }
            i += 1;
        }
        self.finished = true;
        r
    }
}

} // verus!
