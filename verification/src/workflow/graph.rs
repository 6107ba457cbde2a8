use vstd::prelude::*;

use crate::text::{ids, lemma_ids_push, str_eq};
use crate::workflow::node::NodeKind;
use crate::workflow::prompt::{
    contains_id, index_of, kind_of, lemma_index_of, node, Prompt,
    WorkflowView,
};

verus! {

/// The ids met by a depth-first walk that starts at node `id` and follows
/// input connections, in the order they are met: the node itself, then the
/// walks from each of its inputs in order. Ids without a node are skipped.
/// The walk descends at most `fuel` connections deep.
pub open spec fn preorder(w: WorkflowView, id: Seq<char>, fuel: nat) -> Seq<Seq<char>>
    decreases fuel, 0nat, 0nat,
{
    match node(w, id) {
        None => seq![],
        Some(n) => if fuel == 0 {
            seq![id]
        } else {
            seq![id] + preorder_inputs(w, n.connections(), (fuel - 1) as nat, n.connections().len())
        },
    }
}

/// The walks from the first `k` of the ids `cs`, one after the other.
pub open spec fn preorder_inputs(w: WorkflowView, cs: Seq<Seq<char>>, fuel: nat, k: nat) -> Seq<
    Seq<char>,
>
    decreases fuel, 1nat, k,
{
    if k == 0 || k > cs.len() {
        seq![]
    } else {
        preorder_inputs(w, cs, fuel, (k - 1) as nat) + preorder(w, cs[k - 1], fuel)
    }
}

/// The depth bound for walks over a workflow: its number of entries. In an
/// acyclic workflow no chain of connections is longer, so the bounded walk
/// is the whole walk.
pub open spec fn walk_depth(w: WorkflowView) -> nat {
    w.len()
}

/// The last of the first `n` ids of `order` whose node is of kind `kind`.
pub open spec fn last_of_kind(w: WorkflowView, order: Seq<Seq<char>>, kind: NodeKind, n: int) -> Option<
    Seq<char>,
>
    decreases n,
{
    if n <= 0 {
        None
    } else if kind_of(w, order[n - 1]) == Some(kind) {
        Some(order[n - 1])
    } else {
        last_of_kind(w, order, kind, n - 1)
    }
}

/// Whether entry `i` is an output node: the first entry with its id, with at
/// least one input, and with no node of the workflow taking input from it.
pub open spec fn is_output_entry(w: WorkflowView, i: int) -> bool {
    &&& 0 <= i < w.len()
    &&& index_of(w, w[i].0) == i
    &&& w[i].1.connections().len() > 0
    &&& forall|j: int, m: int|
        0 <= j < w.len() && 0 <= m < w[j].1.connections().len() ==> #[trigger] w[j].1.connections()[m]
            != w[i].0
}

/// The position of the first output entry among the first `n`, or -1.
pub open spec fn first_output_in(w: WorkflowView, n: int) -> int
    decreases n,
{
    if n <= 0 {
        -1
    } else {
        let k = first_output_in(w, n - 1);
        if k >= 0 {
            k
        } else if is_output_entry(w, n - 1) {
            n - 1
        } else {
            -1
        }
    }
}

/// The id of the workflow's output node (the first output entry), if any.
pub open spec fn output_node(w: WorkflowView) -> Option<Seq<char>> {
    let k = first_output_in(w, w.len() as int);
    if k >= 0 {
        Some(w[k].0)
    } else {
        None
    }
}

/// The node of kind `kind` reached last by the walk from `output`, or from
/// the workflow's output node when `output` is `None`.
pub open spec fn found_node(w: WorkflowView, kind: NodeKind, output: Option<Seq<char>>) -> Option<
    Seq<char>,
> {
    let start = match output {
        Some(o) => Some(o),
        None => output_node(w),
    };
    match start {
        Some(s) => {
            let order = preorder(w, s, walk_depth(w));
            last_of_kind(w, order, kind, order.len() as int)
        },
        None => None,
    }
}

/// The position of the first entry whose node is of kind `kind` among the
/// first `n`, or -1.
pub open spec fn first_of_kind_in(w: WorkflowView, kind: NodeKind, n: int) -> int
    decreases n,
{
    if n <= 0 {
        -1
    } else {
        let k = first_of_kind_in(w, kind, n - 1);
        if k >= 0 {
            k
        } else if w[n - 1].1.kind() == kind {
            n - 1
        } else {
            -1
        }
    }
}

/// The position of the node of kind `kind` that reads and writes act on when
/// no node is named: the one the walk from the output node reaches last, or
/// else the first one in the workflow; -1 when there is none.
pub open spec fn guessed_index(w: WorkflowView, kind: NodeKind) -> int {
    match found_node(w, kind, None) {
        Some(id) => index_of(w, id),
        None => first_of_kind_in(w, kind, w.len() as int),
    }
}

pub proof fn lemma_first_output_in(w: WorkflowView, n: int)
    requires
        0 <= n <= w.len(),
    ensures
        -1 <= first_output_in(w, n) < n,
        first_output_in(w, n) >= 0 ==> is_output_entry(w, first_output_in(w, n)),
        forall|j: int| 0 <= j < n && (j < first_output_in(w, n) || first_output_in(w, n) == -1) ==> !is_output_entry(w, j),
    decreases n,
{
    if n > 0 {
        lemma_first_output_in(w, n - 1);
    }
}

pub proof fn lemma_first_of_kind_in(w: WorkflowView, kind: NodeKind, n: int)
    requires
        0 <= n <= w.len(),
    ensures
        -1 <= first_of_kind_in(w, kind, n) < n,
        first_of_kind_in(w, kind, n) >= 0 ==> w[first_of_kind_in(w, kind, n)].1.kind() == kind,
        forall|j: int| 0 <= j < n && (j < first_of_kind_in(w, kind, n) || first_of_kind_in(w, kind, n) == -1) ==> w[j].1.kind() != kind,
    decreases n,
{
    if n > 0 {
        lemma_first_of_kind_in(w, kind, n - 1);
    }
}

pub proof fn lemma_last_of_kind(w: WorkflowView, order: Seq<Seq<char>>, kind: NodeKind, n: int)
    requires
        0 <= n <= order.len(),
    ensures
        last_of_kind(w, order, kind, n) matches Some(id) ==> kind_of(w, id) == Some(kind),
    decreases n,
{
    if n > 0 {
        lemma_last_of_kind(w, order, kind, n - 1);
    }
}

/// The node a walk finds is in the workflow and of the kind asked for.
pub proof fn lemma_found_node(w: WorkflowView, kind: NodeKind, output: Option<Seq<char>>)
    ensures
        found_node(w, kind, output) matches Some(id) ==> contains_id(w, id) && kind_of(w, id) == Some(kind),
{
    let start = match output {
        Some(o) => Some(o),
        None => output_node(w),
    };
    if let Some(s) = start {
        let order = preorder(w, s, walk_depth(w));
        lemma_last_of_kind(w, order, kind, order.len() as int);
    }
}

/// The guessed position, when there is one, holds a node of the kind asked for.
pub proof fn lemma_guessed_index(w: WorkflowView, kind: NodeKind)
    ensures
        -1 <= guessed_index(w, kind) < w.len(),
        guessed_index(w, kind) >= 0 ==> w[guessed_index(w, kind)].1.kind() == kind,
        guessed_index(w, kind) == -1 ==> forall|j: int| 0 <= j < w.len() ==> w[j].1.kind() != kind,
{
    lemma_found_node(w, kind, None);
    lemma_first_of_kind_in(w, kind, w.len() as int);
    if let Some(id) = found_node(w, kind, None) {
        lemma_index_of(w, id);
    }
}

impl Prompt {
    /// Appends to `acc` the ids met by the walk from `id` (see `preorder`).
    pub fn collect_preorder(&self, id: &str, fuel: usize, acc: &mut Vec<String>)
        ensures
            ids(final(acc)@) == ids(old(acc)@) + preorder(self@, id@, fuel as nat),
        decreases fuel,
    {
        match self.get_node_by_id(id) {
            None => {
                assert(ids(acc@) =~= ids(old(acc)@) + preorder(self@, id@, fuel as nat));
            },
            Some(n) => {
                let ghost start = acc@;
                acc.push(id.to_owned());
                proof {
                    lemma_ids_push(start, acc@.last());
                }
                if fuel == 0 {
                    assert(ids(acc@) =~= ids(old(acc)@) + preorder(self@, id@, fuel as nat));
                    return ;
                }
                let cs = n.connections();
                let ghost css = ids(cs@);
                let mut i: usize = 0;
                while i < cs.len()
                    invariant
                        0 < fuel,
                        i <= cs.len(),
                        css == ids(cs@),
                        css == n@.connections(),
                        ids(acc@) == ids(old(acc)@) + seq![id@] + preorder_inputs(
                            self@,
                            css,
                            (fuel - 1) as nat,
                            i as nat,
                        ),
                    decreases cs.len() - i,
                {
                    let ghost before = acc@;
                    self.collect_preorder(cs[i].as_str(), fuel - 1, acc);
                    assert(css[i as int] == cs@[i as int]@);
                    assert(preorder_inputs(self@, css, (fuel - 1) as nat, (i + 1) as nat)
                        == preorder_inputs(self@, css, (fuel - 1) as nat, i as nat) + preorder(
                        self@,
                        css[i as int],
                        (fuel - 1) as nat,
                    ));
                    i += 1;
                    assert(ids(acc@) =~= ids(old(acc)@) + seq![id@] + preorder_inputs(
                        self@,
                        css,
                        (fuel - 1) as nat,
                        i as nat,
                    ));
                }
                assert(ids(acc@) =~= ids(old(acc)@) + preorder(self@, id@, fuel as nat));
            },
        }
    }

    /// The ids met by the walk from `id`, descending at most as many
    /// connections deep as the workflow has nodes.
    pub fn walk(&self, id: &str) -> (r: Vec<String>)
        ensures
            ids(r@) == preorder(self@, id@, walk_depth(self@)),
    {
        let mut acc: Vec<String> = Vec::new();
        assert(self@.len() == self.workflow@.len());
        self.collect_preorder(id, self.workflow.len(), &mut acc);
        assert(ids(acc@) =~= preorder(self@, id@, walk_depth(self@)));
        acc
    }

    /// The kind of the node with id `id`, if any.
    pub fn kind_of_node(&self, id: &str) -> (r: Option<NodeKind>)
        ensures
            r == kind_of(self@, id@),
    {
        match self.get_node_by_id(id) {
            Some(n) => Some(n.kind()),
            None => None,
        }
    }

    /// The last id of `order` whose node is of kind `kind`.
    pub fn last_of_kind(&self, order: &Vec<String>, kind: NodeKind) -> (r: Option<String>)
        ensures
            r matches Some(s) ==> last_of_kind(self@, ids(order@), kind, order@.len() as int) == Some(s@),
            r is None ==> last_of_kind(self@, ids(order@), kind, order@.len() as int) is None,
    {
        let mut found: Option<String> = None;
        let mut i: usize = 0;
        while i < order.len()
            invariant
                i <= order.len(),
                found matches Some(s) ==> last_of_kind(self@, ids(order@), kind, i as int) == Some(s@),
                found is None ==> last_of_kind(self@, ids(order@), kind, i as int) is None,
            decreases order.len() - i,
        {
            assert(ids(order@)[i as int] == order@[i as int]@);
            if self.kind_of_node(order[i].as_str()) == Some(kind) {
                found = Some(order[i].clone());
            }
            i += 1;
        }
        found
    }

    /// Whether entry `i` is an output node (see `is_output_entry`).
    fn is_output_entry(&self, i: usize) -> (r: bool)
        requires
            i < self@.len(),
        ensures
            r == is_output_entry(self@, i as int),
    {
        let w = Ghost(self@);
        assert(w@.len() == self.workflow@.len());
        let key = self.workflow[i].0.as_str();
        assert(key@ == w@[i as int].0);
        match self.index_of_node(key) {
            Some(k) => {
                if k != i {
                    return false;
                }
            },
            None => {
                proof {
                    lemma_index_of(w@, key@);
                }
                return false;
            },
        }
        let own = self.workflow[i].1.connections();
        if own.len() == 0 {
            return false;
        }
        let mut j: usize = 0;
        while j < self.workflow.len()
            invariant
                w@ == self@,
                w@.len() == self.workflow@.len(),
                j <= self.workflow.len(),
                i < self.workflow.len(),
                key@ == w@[i as int].0,
                forall|jj: int, m: int|
                    0 <= jj < j && 0 <= m < w@[jj].1.connections().len() ==> #[trigger] w@[jj].1.connections()[m]
                        != key@,
            decreases self.workflow.len() - j,
        {
            let cs = self.workflow[j].1.connections();
            let mut m: usize = 0;
            while m < cs.len()
                invariant
                    w@ == self@,
                    w@.len() == self.workflow@.len(),
                    j < self.workflow.len(),
                    i < self.workflow.len(),
                    key@ == w@[i as int].0,
                    m <= cs.len(),
                    ids(cs@) == w@[j as int].1.connections(),
                    forall|mm: int| 0 <= mm < m ==> #[trigger] w@[j as int].1.connections()[mm] != key@,
                decreases cs.len() - m,
            {
                assert(ids(cs@)[m as int] == cs@[m as int]@);
                if str_eq(cs[m].as_str(), key) {
                    assert(w@[j as int].1.connections()[m as int] == w@[i as int].0);
                    return false;
                }
                m += 1;
            }
            j += 1;
        }
        true
    }

    /// Finds the output node of the workflow: the first node that has at
    /// least one input and that no node takes input from.
    pub fn find_output_node(&self) -> (r: Option<String>)
        ensures
            r matches Some(s) ==> output_node(self@) == Some(s@),
            r is None ==> output_node(self@) is None,
    {
        let ghost w = self@;
        let mut i: usize = 0;
        while i < self.workflow.len()
            invariant
                w == self@,
                w.len() == self.workflow@.len(),
                i <= self.workflow.len(),
                first_output_in(w, i as int) == -1,
            decreases self.workflow.len() - i,
        {
            if self.is_output_entry(i) {
                assert(first_output_in(w, i + 1) == i);
                proof {
                    lemma_first_output_prefix(w, i + 1);
                }
                return Some(self.workflow[i].0.clone());
            }
            i += 1;
        }
        proof {
            lemma_first_output_prefix(w, i as int);
        }
        None
    }

    /// Finds the node of kind `kind` that the walk from `output_node` (or from
    /// the workflow's output node when it is `None`) reaches last.
    pub fn find_node(&self, kind: NodeKind, output_node: Option<&str>) -> (r: Option<String>)
        requires
            output_node matches Some(o) ==> contains_id(self@, o@),
        ensures
            r matches Some(s) ==> found_node(self@, kind, opt_view(output_node)) == Some(s@),
            r is None ==> found_node(self@, kind, opt_view(output_node)) is None,
    {
        let start = match output_node {
            Some(o) => o.to_owned(),
            None => match self.find_output_node() {
                Some(s) => s,
                None => return None,
            },
        };
        let order = self.walk(start.as_str());
        self.last_of_kind(&order, kind)
    }

    /// The position of the node of kind `kind` that reads and writes act on
    /// when no node is named (see `guessed_index`).
    pub fn guess_node(&self, kind: NodeKind) -> (r: Option<usize>)
        ensures
            r matches Some(i) ==> i == guessed_index(self@, kind),
            r is None ==> guessed_index(self@, kind) == -1,
    {
        proof {
            lemma_found_node(self@, kind, None);
        }
        match self.find_node(kind, None) {
            Some(id) => {
                proof {
                    lemma_index_of(self@, id@);
                }
                self.index_of_node(id.as_str())
            },
            None => self.first_node_of_kind(kind),
        }
    }

    /// The position of the first node of kind `kind`.
    pub fn first_node_of_kind(&self, kind: NodeKind) -> (r: Option<usize>)
        ensures
            r matches Some(i) ==> i == first_of_kind_in(self@, kind, self@.len() as int),
            r is None ==> first_of_kind_in(self@, kind, self@.len() as int) == -1,
    {
        let ghost w = self@;
        let mut i: usize = 0;
        while i < self.workflow.len()
            invariant
                w == self@,
                w.len() == self.workflow@.len(),
                i <= self.workflow.len(),
                first_of_kind_in(w, kind, i as int) == -1,
            decreases self.workflow.len() - i,
        {
            if self.workflow[i].1.kind() == kind {
                assert(first_of_kind_in(w, kind, i + 1) == i);
                proof {
                    lemma_first_of_kind_prefix(w, kind, i + 1);
                }
                return Some(i);
            }
            i += 1;
        }
        proof {
            lemma_first_of_kind_prefix(w, kind, i as int);
        }
        None
    }
}

/// The view of an optional string slice.
pub open spec fn opt_view(o: Option<&str>) -> Option<Seq<char>> {
    match o {
        Some(s) => Some(s@),
        None => None,
    }
}

proof fn lemma_first_output_prefix(w: WorkflowView, n: int)
    requires
        0 <= n <= w.len(),
        first_output_in(w, n) >= 0 || n == w.len(),
    ensures
        first_output_in(w, w.len() as int) == first_output_in(w, n),
    decreases w.len() - n,
{
    if n < w.len() {
        lemma_first_output_prefix(w, n + 1);
    }
}

proof fn lemma_first_of_kind_prefix(w: WorkflowView, kind: NodeKind, n: int)
    requires
        0 <= n <= w.len(),
        first_of_kind_in(w, kind, n) >= 0 || n == w.len(),
    ensures
        first_of_kind_in(w, kind, w.len() as int) == first_of_kind_in(w, kind, n),
    decreases w.len() - n,
{
    if n < w.len() {
        lemma_first_of_kind_prefix(w, kind, n + 1);
    }
}

} // verus!
