use vstd::prelude::*;

use crate::text::str_eq;
use crate::workflow::node::{NodeKind, NodeOrUnknown, NodeView};

verus! {

/// The abstract value of a workflow: its entries in order, each a node id
/// and the node's abstract value.
pub type WorkflowView = Seq<(Seq<char>, NodeView)>;

/// The position of the first entry with id `id` among the first `n` entries,
/// or -1 when there is none.
pub open spec fn index_in(w: WorkflowView, id: Seq<char>, n: int) -> int
    decreases n,
{
    if n <= 0 {
        -1
    } else {
        let k = index_in(w, id, n - 1);
        if k >= 0 {
            k
        } else if w[n - 1].0 == id {
            n - 1
        } else {
            -1
        }
    }
}

/// The position of the entry with id `id` (the first one, should the id
/// occur twice), or -1 when there is none.
pub open spec fn index_of(w: WorkflowView, id: Seq<char>) -> int {
    index_in(w, id, w.len() as int)
}

/// Whether the workflow has a node with id `id`.
pub open spec fn contains_id(w: WorkflowView, id: Seq<char>) -> bool {
    index_of(w, id) >= 0
}

/// The node with id `id`, if any.
pub open spec fn node(w: WorkflowView, id: Seq<char>) -> Option<NodeView> {
    if contains_id(w, id) {
        Some(w[index_of(w, id)].1)
    } else {
        None
    }
}

/// The kind of the node with id `id`, if any.
pub open spec fn kind_of(w: WorkflowView, id: Seq<char>) -> Option<NodeKind> {
    match node(w, id) {
        Some(n) => Some(n.kind()),
        None => None,
    }
}

pub proof fn lemma_index_in(w: WorkflowView, id: Seq<char>, n: int)
    requires
        0 <= n <= w.len(),
    ensures
        -1 <= index_in(w, id, n) < n,
        index_in(w, id, n) >= 0 ==> w[index_in(w, id, n)].0 == id,
        forall|j: int| 0 <= j < n && j < index_in(w, id, n) ==> w[j].0 != id,
        index_in(w, id, n) == -1 ==> forall|j: int| 0 <= j < n ==> w[j].0 != id,
    decreases n,
{
    if n > 0 {
        lemma_index_in(w, id, n - 1);
    }
}

/// The position of an entry is the first position holding its id.
pub proof fn lemma_index_of(w: WorkflowView, id: Seq<char>)
    ensures
        -1 <= index_of(w, id) < w.len(),
        contains_id(w, id) ==> w[index_of(w, id)].0 == id,
        forall|j: int| 0 <= j < index_of(w, id) ==> w[j].0 != id,
        !contains_id(w, id) ==> forall|j: int| 0 <= j < w.len() ==> w[j].0 != id,
{
    lemma_index_in(w, id, w.len() as int);
}

/// An entry whose id occurs nowhere before it is found at its position.
pub proof fn lemma_index_of_first(w: WorkflowView, i: int)
    requires
        0 <= i < w.len(),
        forall|j: int| 0 <= j < i ==> w[j].0 != w[i].0,
    ensures
        index_of(w, w[i].0) == i,
{
    lemma_index_of(w, w[i].0);
}

/// Replacing the node of an entry keeps every id where it was.
pub proof fn lemma_index_of_update(w: WorkflowView, i: int, n: NodeView, id: Seq<char>)
    requires
        0 <= i < w.len(),
    ensures
        index_of(w.update(i, (w[i].0, n)), id) == index_of(w, id),
{
    let w2 = w.update(i, (w[i].0, n));
    assert forall|m: int| 0 <= m <= w.len() implies index_in(w2, id, m) == index_in(w, id, m) by {
        lemma_index_in_update(w, i, n, id, m);
    }
}

proof fn lemma_index_in_update(w: WorkflowView, i: int, n: NodeView, id: Seq<char>, m: int)
    requires
        0 <= i < w.len(),
        0 <= m <= w.len(),
    ensures
        index_in(w.update(i, (w[i].0, n)), id, m) == index_in(w, id, m),
    decreases m,
{
    if m > 0 {
        lemma_index_in_update(w, i, n, id, m - 1);
    }
}

/// Struct representing a prompt workflow.
#[derive(Debug, PartialEq)]
pub struct Prompt {
    /// The prompt workflow: node ids and their nodes.
    pub workflow: Vec<(String, NodeOrUnknown)>,
}

impl View for Prompt {
    type V = WorkflowView;

    open spec fn view(&self) -> WorkflowView {
        self.workflow@.map_values(|e: (String, NodeOrUnknown)| (e.0@, e.1@))
    }
}

impl Clone for Prompt {
    fn clone(&self) -> (r: Self)
        ensures
            r@ == self@,
    {
        let mut workflow: Vec<(String, NodeOrUnknown)> = Vec::new();
        let mut i: usize = 0;
        while i < self.workflow.len()
            invariant
                i <= self.workflow.len(),
                workflow@.len() == i,
                forall|j: int|
                    0 <= j < i ==> (#[trigger] workflow@[j]).0 == self.workflow@[j].0
                        && workflow@[j].1@ == self.workflow@[j].1@,
            decreases self.workflow.len() - i,
        {
            let (k, n) = &self.workflow[i];
            workflow.push((k.clone(), n.clone()));
            i += 1;
        }
        let r = Prompt { workflow };
        assert(r@ =~= self@);
        r
    }
}

impl Prompt {
    /// An empty workflow.
    pub fn new() -> (r: Self)
        ensures
            r@ == Seq::<(Seq<char>, NodeView)>::empty(),
    {
        let r = Prompt { workflow: Vec::new() };
        assert(r@ =~= Seq::<(Seq<char>, NodeView)>::empty());
        r
    }

    /// The position of the node with id `id`.
    pub fn index_of_node(&self, id: &str) -> (r: Option<usize>)
        ensures
            r matches Some(i) ==> i == index_of(self@, id@),
            r is None <==> !contains_id(self@, id@),
    {
        let mut i: usize = 0;
        while i < self.workflow.len()
            invariant
                i <= self.workflow.len(),
                self@.len() == self.workflow@.len(),
                index_in(self@, id@, i as int) == -1,
            decreases self.workflow.len() - i,
        {
            if str_eq(self.workflow[i].0.as_str(), id) {
                assert(index_in(self@, id@, i + 1) == i);
                proof {
                    lemma_index_in_prefix(self@, id@, i + 1);
                }
                return Some(i);
            }
            i += 1;
        }
        proof {
            lemma_index_in_prefix(self@, id@, i as int);
        }
        None
    }

    /// Get the node with id `id`.
    pub fn get_node_by_id(&self, id: &str) -> (r: Option<&NodeOrUnknown>)
        ensures
            r is Some <==> contains_id(self@, id@),
            r matches Some(n) ==> node(self@, id@) == Some(n@),
    {
        proof {
            lemma_index_of(self@, id@);
        }
        assert(self@.len() == self.workflow@.len());
        match self.index_of_node(id) {
            Some(i) => Some(&self.workflow[i].1),
            None => None,
        }
    }

    /// Replaces the node at position `i`, keeping its id.
    pub fn replace_node(&mut self, i: usize, n: NodeOrUnknown)
        requires
            i < old(self)@.len(),
        ensures
            final(self)@ == old(self)@.update(i as int, (old(self)@[i as int].0, n@)),
    {
        let k = self.workflow[i].0.clone();
        self.workflow.set(i, (k, n));
        assert(self@ =~= old(self)@.update(i as int, (old(self)@[i as int].0, n@)));
    }
}

/// Once an id is found among the first `n` entries, the position does not
/// change with more entries.
pub proof fn lemma_index_in_prefix(w: WorkflowView, id: Seq<char>, n: int)
    requires
        0 <= n <= w.len(),
        index_in(w, id, n) >= 0 || n == w.len(),
    ensures
        index_of(w, id) == index_in(w, id, n),
    decreases w.len() - n,
{
    if n < w.len() {
        lemma_index_in_prefix(w, id, n + 1);
    }
}

} // verus!
