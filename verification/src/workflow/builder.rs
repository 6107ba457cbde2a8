use vstd::prelude::*;

use crate::workflow::access::{
    lemma_write_at, set_field_at, set_field_from, set_field_on, AccessError, Field, SlotValue,
};
use crate::workflow::graph::output_node;
use crate::workflow::prompt::{contains_id, index_of, lemma_index_of, Prompt, WorkflowView};

verus! {

/// A value to write, and the node to write it on (when `None`, the node is
/// found by walking back from the output node).
#[derive(Debug, PartialEq)]
pub struct OverrideNode<T> {
    /// The id of the node to write the value on.
    pub node: Option<String>,
    /// The value.
    pub value: T,
}

/// A builder for creating a `Prompt` instance.
#[derive(Debug, PartialEq)]
pub struct PromptBuilder {
    /// The workflow the new prompt starts from.
    pub base_prompt: Prompt,
    /// The output node the values are written for.
    pub output_node: Option<String>,
    /// The prompt text to write.
    pub prompt: Option<OverrideNode<String>>,
    /// The negative prompt text to write.
    pub negative_prompt: Option<OverrideNode<String>>,
    /// The model to write.
    pub model: Option<OverrideNode<String>>,
    /// The width to write.
    pub width: Option<OverrideNode<u32>>,
    /// The height to write.
    pub height: Option<OverrideNode<u32>>,
    /// The seed to write.
    pub seed: Option<OverrideNode<i64>>,
}

/// Why a prompt could not be built.
#[derive(Debug, Clone, Copy, PartialEq, Eq, Structural)]
pub enum BuildError {
    /// No output node was given and the workflow has none.
    NoOutputNode,
    /// A value could not be written.
    Access(AccessError),
}

/// An override as the node it names and the value it writes.
pub type OverrideView = (Option<String>, SlotValue);

/// The view of a text override.
pub open spec fn text_override(o: Option<OverrideNode<String>>) -> Option<OverrideView> {
    match o {
        Some(x) => Some((x.node, SlotValue::Text(x.value))),
        None => None,
    }
}

/// The view of a count override.
pub open spec fn count_override(o: Option<OverrideNode<u32>>) -> Option<OverrideView> {
    match o {
        Some(x) => Some((x.node, SlotValue::Count(x.value))),
        None => None,
    }
}

/// The view of a seed override.
pub open spec fn seed_override(o: Option<OverrideNode<i64>>) -> Option<OverrideView> {
    match o {
        Some(x) => Some((x.node, SlotValue::Seed(x.value))),
        None => None,
    }
}

/// Writes one override into `w`: on the node it names, or else on the node
/// found from output node `out`; a node-not-found error, with nothing
/// changed, when that node is not in the workflow.
pub open spec fn apply_override(w: WorkflowView, f: Field, ov: OverrideView, out: Seq<char>) -> (
    WorkflowView,
    Result<(), AccessError>,
) {
    match ov.0 {
        Some(n) => set_field_on(w, f, n@, ov.1),
        None => set_field_from(w, f, out, ov.1),
    }
}

/// One step of building: nothing after an error, nothing for an absent
/// override, else the override written, or its error.
#[verifier::opaque]
pub open spec fn build_step(
    r: Result<WorkflowView, AccessError>,
    f: Field,
    ov: Option<OverrideView>,
    out: Seq<char>,
) -> Result<WorkflowView, AccessError> {
    match r {
        Err(e) => Err(e),
        Ok(w) => match ov {
            None => Ok(w),
            Some(o) => {
                let (w2, res) = apply_override(w, f, o, out);
                match res {
                    Ok(_) => Ok(w2),
                    Err(e) => Err(e),
                }
            },
        },
    }
}

/// The output node values are written for: the one given, else the
/// workflow's own output node.
pub open spec fn build_output(b: PromptBuilder) -> Option<Seq<char>> {
    match b.output_node {
        Some(o) => Some(o@),
        None => output_node(b.base_prompt@),
    }
}

/// The workflow `build` produces, or its error: the overrides are written
/// in the order prompt, negative prompt, model, width, height, seed, and
/// the first failure stops the build.
pub open spec fn built(b: PromptBuilder) -> Result<WorkflowView, BuildError> {
    match build_output(b) {
        None => Err(BuildError::NoOutputNode),
        Some(out) => {
            let r0 = Ok(b.base_prompt@);
            let r1 = build_step(r0, Field::Prompt, text_override(b.prompt), out);
            let r2 = build_step(r1, Field::NegativePrompt, text_override(b.negative_prompt), out);
            let r3 = build_step(r2, Field::Model, text_override(b.model), out);
            let r4 = build_step(r3, Field::Width, count_override(b.width), out);
            let r5 = build_step(r4, Field::Height, count_override(b.height), out);
            let r6 = build_step(r5, Field::Seed, seed_override(b.seed), out);
            match r6 {
                Ok(w) => Ok(w),
                Err(e) => Err(BuildError::Access(e)),
            }
        },
    }
}

/// Writing a field keeps every id where it was.
pub proof fn lemma_set_field_at_ids(w: WorkflowView, i: int, f: Field, v: SlotValue)
    requires
        0 <= i < w.len(),
    ensures
        set_field_at(w, i, f, v).0.len() == w.len(),
        forall|id: Seq<char>| index_of(#[trigger] set_field_at(w, i, f, v).0, id) == index_of(w, id),
{
    lemma_write_at(w, i, f.spec_primary(), v);
    if let Some(s2) = f.spec_secondary() {
        lemma_write_at(w, i, s2, v);
    }
}

/// Writing a field on a node named by id keeps every id where it was.
pub proof fn lemma_set_field_on_ids(w: WorkflowView, f: Field, node: Seq<char>, v: SlotValue)
    ensures
        set_field_on(w, f, node, v).0.len() == w.len(),
        forall|id: Seq<char>| index_of(#[trigger] set_field_on(w, f, node, v).0, id) == index_of(w, id),
{
    if contains_id(w, node) {
        lemma_index_of(w, node);
        lemma_set_field_at_ids(w, index_of(w, node), f, v);
    }
}

/// Writing a field from an output node keeps every id where it was.
pub proof fn lemma_set_field_from_ids(w: WorkflowView, f: Field, out: Seq<char>, v: SlotValue)
    ensures
        set_field_from(w, f, out, v).0.len() == w.len(),
        forall|id: Seq<char>| index_of(#[trigger] set_field_from(w, f, out, v).0, id) == index_of(w, id),
{
    if contains_id(w, out) {
        if let Some(id) = crate::workflow::access::target_from(w, f, out) {
            lemma_set_field_on_ids(w, f, id, v);
        }
    }
}

impl<T> OverrideNode<T> {
    /// An override of `value` on `node`.
    pub fn new(value: T, node: Option<String>) -> (r: Self)
        ensures
            r.node == node,
            r.value == value,
    {
        OverrideNode { node, value }
    }
}

/// Writes one override into `p` (see `apply_override`). The ids of `p` are
/// where they are in `base`.
fn apply_one(p: &mut Prompt, f: Field, ov: Option<OverrideView>, out: &str, Ghost(base): Ghost<WorkflowView>) -> (r: Result<(), AccessError>)
    requires
        ov matches Some(o) ==> f.fits(o.1),
        forall|id: Seq<char>| index_of(#[trigger] old(p)@, id) == index_of(base, id),
    ensures
        build_step(Ok(old(p)@), f, ov, out@) == (match r {
            Ok(_) => Ok::<WorkflowView, AccessError>(final(p)@),
            Err(e) => Err::<WorkflowView, AccessError>(e),
        }),
        forall|id: Seq<char>| index_of(#[trigger] final(p)@, id) == index_of(base, id),
{
    reveal(build_step);
    match ov {
        None => Ok(()),
        Some((Some(n), v)) => {
            proof {
                lemma_set_field_on_ids(p@, f, n@, v);
            }
            p.set_field_on(f, n.as_str(), v)
        },
        Some((None, v)) => {
            proof {
                lemma_set_field_from_ids(p@, f, out@, v);
            }
            p.set_field_from(f, out, v)
        },
    }
}

/// A step after an error keeps the error.
proof fn lemma_build_step_err(e: AccessError, out: Seq<char>)
    ensures
        forall|f: Field, ov: Option<OverrideView>| #[trigger] build_step(Err(e), f, ov, out) == Err::<WorkflowView, AccessError>(e),
{
    reveal(build_step);
}

fn text_view(o: Option<OverrideNode<String>>) -> (r: Option<OverrideView>)
    ensures
        r == text_override(o),
{
    match o {
        Some(x) => Some((x.node, SlotValue::Text(x.value))),
        None => None,
    }
}

fn count_view(o: Option<OverrideNode<u32>>) -> (r: Option<OverrideView>)
    ensures
        r == count_override(o),
{
    match o {
        Some(x) => Some((x.node, SlotValue::Count(x.value))),
        None => None,
    }
}

fn seed_view(o: Option<OverrideNode<i64>>) -> (r: Option<OverrideView>)
    ensures
        r == seed_override(o),
{
    match o {
        Some(x) => Some((x.node, SlotValue::Seed(x.value))),
        None => None,
    }
}

impl PromptBuilder {
    /// Constructs a new `PromptBuilder` starting from `base_prompt`, writing
    /// values for `output_node` (or, when `None`, for the workflow's own
    /// output node).
    pub fn new(base_prompt: &Prompt, output_node: Option<String>) -> (r: Self)
        ensures
            r.base_prompt@ == base_prompt@,
            r.output_node == output_node,
            r.prompt is None,
            r.negative_prompt is None,
            r.model is None,
            r.width is None,
            r.height is None,
            r.seed is None,
    {
        PromptBuilder {
            prompt: None,
            negative_prompt: None,
            model: None,
            width: None,
            height: None,
            seed: None,
            base_prompt: base_prompt.clone(),
            output_node,
        }
    }

    /// Sets the prompt to write, on `node` or on the node found from the
    /// output node.
    pub fn prompt(self, value: String, node: Option<String>) -> (r: Self)
        ensures
            r == (PromptBuilder { prompt: Some(OverrideNode { node, value }), ..self }),
    {
        PromptBuilder { prompt: Some(OverrideNode { node, value }), ..self }
    }

    /// Sets the negative prompt to write.
    pub fn negative_prompt(self, value: String, node: Option<String>) -> (r: Self)
        ensures
            r == (PromptBuilder { negative_prompt: Some(OverrideNode { node, value }), ..self }),
    {
        PromptBuilder { negative_prompt: Some(OverrideNode { node, value }), ..self }
    }

    /// Sets the model to write.
    pub fn model(self, value: String, node: Option<String>) -> (r: Self)
        ensures
            r == (PromptBuilder { model: Some(OverrideNode { node, value }), ..self }),
    {
        PromptBuilder { model: Some(OverrideNode { node, value }), ..self }
    }

    /// Sets the width to write.
    pub fn width(self, value: u32, node: Option<String>) -> (r: Self)
        ensures
            r == (PromptBuilder { width: Some(OverrideNode { node, value }), ..self }),
    {
        PromptBuilder { width: Some(OverrideNode { node, value }), ..self }
    }

    /// Sets the height to write.
    pub fn height(self, value: u32, node: Option<String>) -> (r: Self)
        ensures
            r == (PromptBuilder { height: Some(OverrideNode { node, value }), ..self }),
    {
        PromptBuilder { height: Some(OverrideNode { node, value }), ..self }
    }

    /// Sets the seed to write.
    pub fn seed(self, value: i64, node: Option<String>) -> (r: Self)
        ensures
            r == (PromptBuilder { seed: Some(OverrideNode { node, value }), ..self }),
    {
        PromptBuilder { seed: Some(OverrideNode { node, value }), ..self }
    }

    /// Builds the new prompt (see `built`).
    pub fn build(self) -> (r: Result<Prompt, BuildError>)
        ensures
            match built(self) {
                Ok(w) => r matches Ok(p) && p@ == w,
                Err(e) => r == Err::<Prompt, BuildError>(e),
            },
    {
        let ghost b = self;
        let ghost w0 = self.base_prompt@;
        let mut new_prompt = self.base_prompt.clone();
        let out: String = match self.output_node {
            Some(o) => o,
            None => match new_prompt.find_output_node() {
                Some(o) => o,
                None => return Err(BuildError::NoOutputNode),
            },
        };
        assert(build_output(b) == Some(out@));
        let ov1 = text_view(self.prompt);
        let ov2 = text_view(self.negative_prompt);
        let ov3 = text_view(self.model);
        let ov4 = count_view(self.width);
        let ov5 = count_view(self.height);
        let ov6 = seed_view(self.seed);
        let ghost r0 = Ok::<WorkflowView, AccessError>(w0);
        let ghost r1 = build_step(r0, Field::Prompt, ov1, out@);
        let ghost r2 = build_step(r1, Field::NegativePrompt, ov2, out@);
        let ghost r3 = build_step(r2, Field::Model, ov3, out@);
        let ghost r4 = build_step(r3, Field::Width, ov4, out@);
        let ghost r5 = build_step(r4, Field::Height, ov5, out@);
        let ghost r6 = build_step(r5, Field::Seed, ov6, out@);
        if let Err(e) = apply_one(&mut new_prompt, Field::Prompt, ov1, out.as_str(), Ghost(w0)) {
            proof {
                lemma_build_step_err(e, out@);
            }
            return Err(BuildError::Access(e));
        }
        assert(r1 == Ok::<WorkflowView, AccessError>(new_prompt@));
        if let Err(e) = apply_one(&mut new_prompt, Field::NegativePrompt, ov2, out.as_str(), Ghost(w0)) {
            proof {
                lemma_build_step_err(e, out@);
            }
            return Err(BuildError::Access(e));
        }
        assert(r2 == Ok::<WorkflowView, AccessError>(new_prompt@));
        if let Err(e) = apply_one(&mut new_prompt, Field::Model, ov3, out.as_str(), Ghost(w0)) {
            proof {
                lemma_build_step_err(e, out@);
            }
            return Err(BuildError::Access(e));
        }
        assert(r3 == Ok::<WorkflowView, AccessError>(new_prompt@));
        if let Err(e) = apply_one(&mut new_prompt, Field::Width, ov4, out.as_str(), Ghost(w0)) {
            proof {
                lemma_build_step_err(e, out@);
            }
            return Err(BuildError::Access(e));
        }
        assert(r4 == Ok::<WorkflowView, AccessError>(new_prompt@));
        if let Err(e) = apply_one(&mut new_prompt, Field::Height, ov5, out.as_str(), Ghost(w0)) {
            proof {
                lemma_build_step_err(e, out@);
            }
            return Err(BuildError::Access(e));
        }
        assert(r5 == Ok::<WorkflowView, AccessError>(new_prompt@));
        if let Err(e) = apply_one(&mut new_prompt, Field::Seed, ov6, out.as_str(), Ghost(w0)) {
            proof {
                lemma_build_step_err(e, out@);
            }
            return Err(BuildError::Access(e));
        }
        assert(r6 == Ok::<WorkflowView, AccessError>(new_prompt@));
        Ok(new_prompt)
    }
}

} // verus!
