use vstd::prelude::*;

use crate::workflow::access::{
    set_field_at, set_field_from, set_field_on, set_slot, AccessError, Field, SlotValue,
};
use crate::workflow::graph::{guessed_index, lemma_guessed_index};
use crate::workflow::node::{Node, NodeKind, NodeOrUnknown, NodeView};
use crate::workflow::prompt::{contains_id, index_of, lemma_index_of, WorkflowView};

verus! {

/// A parameter that can be written into a workflow.
pub trait Setter {
    /// The field this setter writes.
    spec fn spec_field() -> Field;

    /// The field this setter writes.
    fn field() -> (f: Field)
        ensures
            f == Self::spec_field(),
    ;
}

/// A `Setter` for setting the prompt text.
#[derive(Debug, Clone, Copy, Default)]
pub struct Prompt {}

impl Setter for Prompt {
    open spec fn spec_field() -> Field {
        Field::Prompt
    }

    fn field() -> (f: Field) {
        Field::Prompt
    }
}

/// A `Setter` for setting the negative prompt text.
#[derive(Debug, Clone, Copy, Default)]
pub struct NegativePrompt {}

impl Setter for NegativePrompt {
    open spec fn spec_field() -> Field {
        Field::NegativePrompt
    }

    fn field() -> (f: Field) {
        Field::NegativePrompt
    }
}

/// A `Setter` for setting the model.
#[derive(Debug, Clone, Copy, Default)]
pub struct Model {}

impl Setter for Model {
    open spec fn spec_field() -> Field {
        Field::Model
    }

    fn field() -> (f: Field) {
        Field::Model
    }
}

/// A `Setter` for setting the image width.
#[derive(Debug, Clone, Copy, Default)]
pub struct Width {}

impl Setter for Width {
    open spec fn spec_field() -> Field {
        Field::Width
    }

    fn field() -> (f: Field) {
        Field::Width
    }
}

/// A `Setter` for setting the image height.
#[derive(Debug, Clone, Copy, Default)]
pub struct Height {}

impl Setter for Height {
    open spec fn spec_field() -> Field {
        Field::Height
    }

    fn field() -> (f: Field) {
        Field::Height
    }
}

/// A `Setter` for setting the seed.
#[derive(Debug, Clone, Copy, Default)]
pub struct Seed {}

impl Setter for Seed {
    open spec fn spec_field() -> Field {
        Field::Seed
    }

    fn field() -> (f: Field) {
        Field::Seed
    }
}

/// A `Setter` for setting the number of steps.
#[derive(Debug, Clone, Copy, Default)]
pub struct Steps {}

impl Setter for Steps {
    open spec fn spec_field() -> Field {
        Field::Steps
    }

    fn field() -> (f: Field) {
        Field::Steps
    }
}

/// A `Setter` for setting the cfg scale.
#[derive(Debug, Clone, Copy, Default)]
pub struct Cfg {}

impl Setter for Cfg {
    open spec fn spec_field() -> Field {
        Field::Cfg
    }

    fn field() -> (f: Field) {
        Field::Cfg
    }
}

/// A `Setter` for setting the denoise strength.
#[derive(Debug, Clone, Copy, Default)]
pub struct Denoise {}

impl Setter for Denoise {
    open spec fn spec_field() -> Field {
        Field::Denoise
    }

    fn field() -> (f: Field) {
        Field::Denoise
    }
}

/// A `Setter` for setting the sampler name.
#[derive(Debug, Clone, Copy, Default)]
pub struct Sampler {}

impl Setter for Sampler {
    open spec fn spec_field() -> Field {
        Field::Sampler
    }

    fn field() -> (f: Field) {
        Field::Sampler
    }
}

/// A `Setter` for setting the batch size.
#[derive(Debug, Clone, Copy, Default)]
pub struct BatchSize {}

impl Setter for BatchSize {
    open spec fn spec_field() -> Field {
        Field::BatchSize
    }

    fn field() -> (f: Field) {
        Field::BatchSize
    }
}

impl crate::workflow::prompt::Prompt {
    /// Writes `value` into the primary slot of the node guessed for setter
    /// `S`'s field.
    pub fn set<S: Setter>(&mut self, value: SlotValue) -> (r: Result<(), AccessError>)
        ensures
            S::spec_field().fits(value) ==> (final(self)@, r) == set_slot(
                old(self)@,
                S::spec_field().spec_primary(),
                value,
            ),
            !S::spec_field().fits(value) ==> final(self)@ == old(self)@ && r == Err::<(), AccessError>(AccessError::WrongNodeType),
    {
        let f = S::field();
        if !f.value_fits(&value) {
            return Err(AccessError::WrongNodeType);
        }
        self.set_slot(f.primary(), value)
    }

    /// Writes `value` for setter `S` into the node reached from `output_node`;
    /// a node-not-found error when there is no such node.
    pub fn set_from<S: Setter>(&mut self, output_node: &str, value: SlotValue) -> (r: Result<(), AccessError>)
        ensures
            S::spec_field().fits(value) ==> (final(self)@, r) == set_field_from(
                old(self)@,
                S::spec_field(),
                output_node@,
                value,
            ),
            !S::spec_field().fits(value) ==> final(self)@ == old(self)@ && r == Err::<(), AccessError>(AccessError::WrongNodeType),
    {
        let f = S::field();
        if !f.value_fits(&value) {
            return Err(AccessError::WrongNodeType);
        }
        self.set_field_from(f, output_node, value)
    }

    /// Writes `value` for setter `S` into the node with id `node`; a
    /// node-not-found error when there is no such node.
    pub fn set_node<S: Setter>(&mut self, node: &str, value: SlotValue) -> (r: Result<(), AccessError>)
        ensures
            S::spec_field().fits(value) ==> (final(self)@, r) == set_field_on(
                old(self)@,
                S::spec_field(),
                node@,
                value,
            ),
            !S::spec_field().fits(value) ==> final(self)@ == old(self)@ && r == Err::<(), AccessError>(AccessError::WrongNodeType),
    {
        let f = S::field();
        if !f.value_fits(&value) {
            return Err(AccessError::WrongNodeType);
        }
        self.set_field_on(f, node, value)
    }
}

/// The workflow after a node edit at position `i`: the edited node replaces
/// the old one when it is still of kind `kind`; otherwise nothing changes and
/// the edit is refused.
pub open spec fn apply_edit(w: WorkflowView, i: int, kind: NodeKind, out: (Node, Result<(), AccessError>)) -> (WorkflowView, Result<(), AccessError>) {
    if out.0.spec_kind() == kind {
        (w.update(i, (w[i].0, NodeView::Known(out.0))), out.1)
    } else {
        (w, Err(AccessError::WrongNodeType))
    }
}

/// Extension methods for `Prompt` to edit nodes with a function.
pub trait SetExt {
    /// Edits the node of kind `kind` guessed for it (see `guessed_index`)
    /// with `f`, which returns the edited node and its result.
    fn set_with<F>(&mut self, kind: NodeKind, f: F) -> Result<(), AccessError> where
        F: FnOnce(Node) -> (Node, Result<(), AccessError>),
        requires
            forall|n: Node| call_requires(f, (n,)),
    ;

    /// Edits the node with id `node`, which must be of kind `kind`, with `f`.
    fn set_node_with<F>(&mut self, node: &str, kind: NodeKind, f: F) -> Result<(), AccessError> where
        F: FnOnce(Node) -> (Node, Result<(), AccessError>),
        requires
            forall|n: Node| call_requires(f, (n,)),
    ;
}

impl crate::workflow::prompt::Prompt {
    /// Edits the known node at position `i` with `f`.
    fn edit_at<F>(&mut self, i: usize, kind: NodeKind, f: F) -> (r: Result<(), AccessError>) where
        F: FnOnce(Node) -> (Node, Result<(), AccessError>),
        requires
            i < old(self)@.len(),
            forall|n: Node| call_requires(f, (n,)),
        ensures
            match old(self)@[i as int].1 {
                NodeView::Known(n) => if n.spec_kind() == kind {
                    exists|out: (Node, Result<(), AccessError>)| #[trigger] call_ensures(f, (n,), out)
                        && (final(self)@, r) == apply_edit(old(self)@, i as int, kind, out)
                } else {
                    final(self)@ == old(self)@ && r == Err::<(), AccessError>(AccessError::WrongNodeType)
                },
                NodeView::Generic(..) => final(self)@ == old(self)@ && r == Err::<(), AccessError>(
                    AccessError::WrongNodeType,
                ),
            },
    {
        assert(self@.len() == self.workflow@.len());
        assert(self@[i as int].1 == self.workflow@[i as int].1@);
        match &self.workflow[i].1 {
            NodeOrUnknown::Node(n) => {
                if n.kind() != kind {
                    return Err(AccessError::WrongNodeType);
                }
                let n = n.clone();
                let out = f(n);
                let (edited, res) = out;
                if edited.kind() == kind {
                    self.replace_node(i, NodeOrUnknown::Node(edited));
                    res
                } else {
                    Err(AccessError::WrongNodeType)
                }
            },
            NodeOrUnknown::GenericNode(_) => Err(AccessError::WrongNodeType),
        }
    }
}

impl SetExt for crate::workflow::prompt::Prompt {
    fn set_with<F>(&mut self, kind: NodeKind, f: F) -> (r: Result<(), AccessError>) where
        F: FnOnce(Node) -> (Node, Result<(), AccessError>),
        ensures
            guessed_index(old(self)@, kind) < 0 ==> final(self)@ == old(self)@ && r == Err::<(), AccessError>(AccessError::NodeNotFound),
            guessed_index(old(self)@, kind) >= 0 ==> match old(self)@[guessed_index(old(self)@, kind)].1 {
                NodeView::Known(n) => exists|out: (Node, Result<(), AccessError>)|
                    #[trigger] call_ensures(f, (n,), out) && (final(self)@, r) == apply_edit(
                        old(self)@,
                        guessed_index(old(self)@, kind),
                        kind,
                        out,
                    ),
                NodeView::Generic(..) => final(self)@ == old(self)@ && r == Err::<(), AccessError>(
                    AccessError::WrongNodeType,
                ),
            },
    {
        proof {
            lemma_guessed_index(self@, kind);
        }
        match self.guess_node(kind) {
            Some(i) => self.edit_at(i, kind, f),
            None => Err(AccessError::NodeNotFound),
        }
    }

    fn set_node_with<F>(&mut self, node: &str, kind: NodeKind, f: F) -> (r: Result<(), AccessError>) where
        F: FnOnce(Node) -> (Node, Result<(), AccessError>),
        ensures
            !contains_id(old(self)@, node@) ==> final(self)@ == old(self)@ && r == Err::<(), AccessError>(AccessError::NodeNotFound),
            contains_id(old(self)@, node@) ==> match old(self)@[index_of(old(self)@, node@)].1 {
                NodeView::Known(n) => if n.spec_kind() == kind {
                    exists|out: (Node, Result<(), AccessError>)| #[trigger] call_ensures(f, (n,), out)
                        && (final(self)@, r) == apply_edit(
                        old(self)@,
                        index_of(old(self)@, node@),
                        kind,
                        out,
                    )
                } else {
                    final(self)@ == old(self)@ && r == Err::<(), AccessError>(AccessError::WrongNodeType)
                },
                NodeView::Generic(..) => final(self)@ == old(self)@ && r == Err::<(), AccessError>(
                    AccessError::WrongNodeType,
                ),
            },
    {
        proof {
            lemma_index_of(self@, node@);
        }
        match self.index_of_node(node) {
            Some(i) => self.edit_at(i, kind, f),
            None => Err(AccessError::NodeNotFound),
        }
    }
}

} // verus!
