//! Where pending text goes: how nodes are found by name, and what a flush
//! does to them.

use vstd::prelude::*;

use crate::model::{flushed, node_position, ConverterModel, NodeModel};

verus! {

/// A name finds the first node that has it; where no node has it, the
/// position is the number of nodes.
pub proof fn law_first_node_named(nodes: Seq<NodeModel>, name: Seq<char>)
    ensures
        node_position(nodes, name) <= nodes.len(),
        node_position(nodes, name) < nodes.len() ==> nodes[node_position(nodes, name) as int].name
            == name,
        forall|j: int| 0 <= j < node_position(nodes, name) ==> #[trigger] nodes[j].name != name,
    decreases nodes.len(),
{
    if nodes.len() > 0 && nodes[0].name != name {
        let rest = nodes.drop_first();
        law_first_node_named(rest, name);
        assert forall|j: int| 0 <= j < node_position(nodes, name) implies #[trigger] nodes[j].name
            != name by {
            if j > 0 {
                assert(nodes[j] == rest[j - 1]);
            }
        }
        if node_position(nodes, name) < nodes.len() {
            assert(nodes[node_position(nodes, name) as int] == rest[node_position(rest, name) as int]);
        }
    }
}

/// A flush moves the pending text to the end of the content of the first
/// node (`j`) named like the current node. Every other node, and all but the
/// nodes and the pending text, stay as they were, and no text is left
/// pending.
pub proof fn law_flush_appends_to_current_node(st: ConverterModel, j: int)
    requires
        (st.current_node is Some),
        0 <= j < st.nodes.len(),
        st.nodes[j].name == st.current_node->0,
        forall|i: int| 0 <= i < j ==> #[trigger] st.nodes[i].name != st.current_node->0,
    ensures
        flushed(st).nodes.len() == st.nodes.len(),
        flushed(st).nodes[j] == (NodeModel { content: st.nodes[j].content + st.text, ..st.nodes[j] }),
        forall|i: int|
            0 <= i < st.nodes.len() && i != j ==> #[trigger] flushed(st).nodes[i] == st.nodes[i],
        flushed(st) == (ConverterModel { nodes: flushed(st).nodes, text: Seq::empty(), ..st }),
{
    let name = st.current_node->0;
    law_first_node_named(st.nodes, name);
    let p = node_position(st.nodes, name) as int;
    if p < j {
        assert(st.nodes[p].name != name);
    }
    if p > j {
        assert(st.nodes[j].name != name);
    }
    assert(p == j);
    if st.text.len() == 0 {
        assert(st.nodes[j].content + st.text =~= st.nodes[j].content);
        assert(st.text =~= Seq::<char>::empty());
    }
}

/// Where there is no current node, or no node of its name, a flush drops
/// the pending text and changes nothing else.
pub proof fn law_flush_without_node(st: ConverterModel)
    requires
        (st.current_node is None) || (forall|i: int|
            0 <= i < st.nodes.len() ==> #[trigger] st.nodes[i].name != st.current_node->0),
    ensures
        flushed(st) == (ConverterModel { text: Seq::empty(), ..st }),
{
    if st.current_node is Some {
        law_first_node_named(st.nodes, st.current_node->0);
    }
    if st.text.len() == 0 {
        assert(st.text =~= Seq::<char>::empty());
    }
}

} // verus!
