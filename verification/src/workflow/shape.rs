use vstd::prelude::*;

use crate::workflow::access::{read_slot, write_at, write_slot, Slot, SlotValue};
use crate::workflow::graph::{
    first_of_kind_in, first_output_in, found_node, guessed_index, is_output_entry,
    last_of_kind, output_node, preorder, preorder_inputs, walk_depth,
};
use crate::workflow::node::NodeView;
use crate::workflow::prompt::{index_in, index_of, kind_of, node, WorkflowView};

verus! {

/// Whether two workflows have the same shape: the same ids in the same
/// order, and at each position nodes of the same kind with the same inputs
/// from other nodes. Only widget values may differ.
pub open spec fn same_shape(a: WorkflowView, b: WorkflowView) -> bool {
    &&& a.len() == b.len()
    &&& forall|i: int|
        0 <= i < a.len() ==> (#[trigger] a[i]).0 == b[i].0 && a[i].1.kind() == b[i].1.kind()
            && a[i].1.connections() == b[i].1.connections()
}

proof fn lemma_index_in_same(a: WorkflowView, b: WorkflowView, id: Seq<char>, n: int)
    requires
        same_shape(a, b),
        n <= a.len(),
    ensures
        index_in(a, id, n) == index_in(b, id, n),
    decreases n,
{
    if n > 0 {
        lemma_index_in_same(a, b, id, n - 1);
        assert(a[n - 1].0 == b[n - 1].0);
    }
}

/// Workflows of the same shape hold each id at the same position, with
/// nodes of the same kind and inputs.
pub proof fn lemma_same_shape_nodes(a: WorkflowView, b: WorkflowView, id: Seq<char>)
    requires
        same_shape(a, b),
    ensures
        index_of(a, id) == index_of(b, id),
        node(a, id) is Some <==> node(b, id) is Some,
        node(a, id) matches Some(n) ==> n.kind() == node(b, id)->0.kind() && n.connections()
            == node(b, id)->0.connections(),
        kind_of(a, id) == kind_of(b, id),
{
    lemma_index_in_same(a, b, id, a.len() as int);
    crate::workflow::prompt::lemma_index_of(a, id);
    if index_of(a, id) >= 0 {
        let k = index_of(a, id);
        assert(a[k].0 == b[k].0);
    }
}

proof fn lemma_preorder_same(a: WorkflowView, b: WorkflowView, id: Seq<char>, fuel: nat)
    requires
        same_shape(a, b),
    ensures
        preorder(a, id, fuel) == preorder(b, id, fuel),
    decreases fuel, 0nat, 0nat,
{
    lemma_same_shape_nodes(a, b, id);
    match node(a, id) {
        None => {},
        Some(n) => {
            if fuel > 0 {
                let cs = n.connections();
                lemma_preorder_inputs_same(a, b, cs, (fuel - 1) as nat, cs.len());
            }
        },
    }
}

proof fn lemma_preorder_inputs_same(a: WorkflowView, b: WorkflowView, cs: Seq<Seq<char>>, fuel: nat, k: nat)
    requires
        same_shape(a, b),
    ensures
        preorder_inputs(a, cs, fuel, k) == preorder_inputs(b, cs, fuel, k),
    decreases fuel, 1nat, k,
{
    if k > 0 && k <= cs.len() {
        lemma_preorder_inputs_same(a, b, cs, fuel, (k - 1) as nat);
        lemma_preorder_same(a, b, cs[k - 1], fuel);
    }
}

proof fn lemma_last_of_kind_same(a: WorkflowView, b: WorkflowView, order: Seq<Seq<char>>, kind: crate::workflow::node::NodeKind, n: int)
    requires
        same_shape(a, b),
    ensures
        last_of_kind(a, order, kind, n) == last_of_kind(b, order, kind, n),
    decreases n,
{
    if n > 0 {
        lemma_same_shape_nodes(a, b, order[n - 1]);
        lemma_last_of_kind_same(a, b, order, kind, n - 1);
    }
}

proof fn lemma_output_entry_same(a: WorkflowView, b: WorkflowView, i: int)
    requires
        same_shape(a, b),
    ensures
        is_output_entry(a, i) == is_output_entry(b, i),
{
    if 0 <= i < a.len() {
        lemma_same_shape_nodes(a, b, a[i].0);
        assert(a[i].0 == b[i].0);
        if is_output_entry(a, i) {
            assert forall|j: int, m: int|
                0 <= j < b.len() && 0 <= m < b[j].1.connections().len() implies #[trigger] b[j].1.connections()[m]
                    != b[i].0 by {
                assert(a[j].1.connections() == b[j].1.connections());
                assert(a[j].1.connections()[m] != a[i].0);
            }
        }
        if is_output_entry(b, i) {
            assert forall|j: int, m: int|
                0 <= j < a.len() && 0 <= m < a[j].1.connections().len() implies #[trigger] a[j].1.connections()[m]
                    != a[i].0 by {
                assert(a[j].1.connections() == b[j].1.connections());
                assert(b[j].1.connections()[m] != b[i].0);
            }
        }
    }
}

proof fn lemma_first_output_same(a: WorkflowView, b: WorkflowView, n: int)
    requires
        same_shape(a, b),
    ensures
        first_output_in(a, n) == first_output_in(b, n),
    decreases n,
{
    if n > 0 {
        lemma_first_output_same(a, b, n - 1);
        lemma_output_entry_same(a, b, n - 1);
    }
}

proof fn lemma_first_of_kind_same(a: WorkflowView, b: WorkflowView, kind: crate::workflow::node::NodeKind, n: int)
    requires
        same_shape(a, b),
        n <= a.len(),
    ensures
        first_of_kind_in(a, kind, n) == first_of_kind_in(b, kind, n),
    decreases n,
{
    if n > 0 {
        lemma_first_of_kind_same(a, b, kind, n - 1);
        assert(a[n - 1].1.kind() == b[n - 1].1.kind());
    }
}

/// Workflows of the same shape have the same output node.
pub proof fn lemma_output_node_same(a: WorkflowView, b: WorkflowView)
    requires
        same_shape(a, b),
    ensures
        output_node(a) == output_node(b),
{
    lemma_first_output_same(a, b, a.len() as int);
    let k = first_output_in(a, a.len() as int);
    if k >= 0 {
        crate::workflow::graph::lemma_first_output_in(a, a.len() as int);
        assert(a[k].0 == b[k].0);
    }
}

/// Workflows of the same shape have the same node guessed for each kind.
pub proof fn lemma_guessed_same(a: WorkflowView, b: WorkflowView, kind: crate::workflow::node::NodeKind)
    requires
        same_shape(a, b),
    ensures
        found_node(a, kind, None) == found_node(b, kind, None),
        guessed_index(a, kind) == guessed_index(b, kind),
{
    lemma_output_node_same(a, b);
    assert(walk_depth(a) == walk_depth(b));
    if let Some(s) = output_node(a) {
        lemma_preorder_same(a, b, s, walk_depth(a));
        let order = preorder(a, s, walk_depth(a));
        lemma_last_of_kind_same(a, b, order, kind, order.len() as int);
    }
    if let Some(id) = found_node(a, kind, None) {
        lemma_same_shape_nodes(a, b, id);
    }
    lemma_first_of_kind_same(a, b, kind, a.len() as int);
}

/// Writing a widget value keeps a node's kind and inputs from other nodes,
/// and reading the slot back gives the value written.
pub proof fn lemma_write_slot(n: NodeView, s: Slot, v: SlotValue)
    requires
        read_slot(n, s) is Ok,
        s.fits(v),
    ensures
        write_slot(n, s, v).kind() == n.kind(),
        write_slot(n, s, v).connections() == n.connections(),
        read_slot(write_slot(n, s, v), s) == Ok::<SlotValue, crate::workflow::access::AccessError>(v),
{
}

/// Writing into a slot keeps the shape of the workflow.
pub proof fn lemma_write_at_shape(w: WorkflowView, i: int, s: Slot, v: SlotValue)
    requires
        0 <= i < w.len(),
        s.fits(v),
    ensures
        same_shape(w, write_at(w, i, s, v).0),
        forall|j: int| 0 <= j < w.len() && j != i ==> (#[trigger] write_at(w, i, s, v).0[j]) == w[j],
        write_at(w, i, s, v).1 is Ok ==> read_slot(write_at(w, i, s, v).0[i].1, s) == Ok::<
            SlotValue,
            crate::workflow::access::AccessError,
        >(v),
{
    if read_slot(w[i].1, s) is Ok {
        lemma_write_slot(w[i].1, s, v);
    }
}

} // verus!
